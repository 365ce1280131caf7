//! A 3D printer whose state is part of its type, so that only the
//! transitions that make sense can be written down.

use vstd::prelude::*;
use std::marker::PhantomData;
use rand::Rng;

verus! {

/// The states as values.
#[derive(Debug, Copy, Clone, PartialEq, Eq, Structural)]
pub enum Phase {
    Error,
    Idle,
    Printing,
    ProductReady,
}

/// A type that stands for one state of the printer.
pub trait State {
    /// The state that the type stands for.
    spec fn phase() -> Phase;
}

/// The 3D printer encountered an error and needs resetting
pub struct ErrorState;

/// The 3D printer is waiting for a job
pub struct IdleState;

/// The 3D printer is currently printing
pub struct PrintingState;

/// The 3D printed product is ready
pub struct ProductReadyState;

impl State for ErrorState {
    open spec fn phase() -> Phase {
        Phase::Error
    }
}

impl State for IdleState {
    open spec fn phase() -> Phase {
        Phase::Idle
    }
}

impl State for PrintingState {
    open spec fn phase() -> Phase {
        Phase::Printing
    }
}

impl State for ProductReadyState {
    open spec fn phase() -> Phase {
        Phase::ProductReady
    }
}

/// A printer in state `S`.
pub struct Printer3D<S> {
    _marker: PhantomData<S>,
}

impl<S: State> Printer3D<S> {
    /// The state that the printer is in.
    pub open spec fn phase(self) -> Phase {
        S::phase()
    }
}

impl Printer3D<IdleState> {
    /// A printer that waits for a job.
    pub fn new() -> (printer: Printer3D<IdleState>)
        ensures
            printer.phase() == Phase::Idle,
    {
        Printer3D { _marker: PhantomData }
    }

    /// Starts a job.
    pub fn start(self) -> (printer: Printer3D<PrintingState>)
        ensures
            printer.phase() == Phase::Printing,
    {
        Printer3D { _marker: PhantomData }
    }
}

impl Printer3D<PrintingState> {
    /// The filament ran out during the job.
    pub fn out_of_filament(self) -> (printer: Printer3D<ErrorState>)
        ensures
            printer.phase() == Phase::Error,
    {
        Printer3D { _marker: PhantomData }
    }

    /// The job is done.
    pub fn product_ready(self) -> (printer: Printer3D<ProductReadyState>)
        ensures
            printer.phase() == Phase::ProductReady,
    {
        Printer3D { _marker: PhantomData }
    }
}

impl Printer3D<ProductReadyState> {
    /// The product was taken out: a printer that waits for a job.
    pub fn product_retrieved() -> (printer: Printer3D<IdleState>)
        ensures
            printer.phase() == Phase::Idle,
    {
        Printer3D { _marker: PhantomData }
    }
}

/// `rand::thread_rng().gen_range(low..high)` draws a number from the
/// thread's generator. It panics on an empty range, which `requires` leaves
/// out; of the number only its range is known.
#[verifier::external_body]
fn random_in(low: usize, high: usize) -> (n: usize)
    requires
        low < high,
    ensures
        low <= n < high,
{
    rand::thread_rng().gen_range(low..high)
}

/// Whether a reading of the filament sensor, a number below 100, means
/// that the filament has run out.
pub fn reads_out_of_filament(reading: usize) -> (out: bool)
    ensures
        out == (reading > 95),
{
    reading > 95
}

/// Check if we're out of filament
pub fn out_of_filament() -> bool {
    let rand: usize = random_in(0, 100);
    reads_out_of_filament(rand)
}

} // verus!
