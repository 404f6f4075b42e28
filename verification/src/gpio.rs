use vstd::prelude::*;

verus! {

/// What a GPIO controller reports when it cannot drive a pin.
#[derive(Clone, Copy, Debug, PartialEq, Eq, Structural)]
pub enum GpioControllerError {
    /// The controller could not be opened.
    Unavailable,
    /// The pin `pin_id` could not be reserved or driven.
    PinFault { pin_id: u8 },
}

impl GpioControllerError {
    /// The text a user sees for this error.
    pub fn message(&self) -> (r: &'static str)
        ensures
            self is Unavailable ==> r@ == "GPIO controller unavailable"@,
            self is PinFault ==> r@ == "GPIO pin fault"@,
    {
        match self {
            GpioControllerError::Unavailable => "GPIO controller unavailable",
            GpioControllerError::PinFault { .. } => "GPIO pin fault",
        }
    }
}

/// A device that switches GPIO pins on and off. Implementations talk to
/// hardware (or pretend to); nothing is promised of what a call returns.
pub trait GpioController: Sized {
    /// What a successful switch of a pin hands back.
    type T;

    /// Opens the controller.
    fn new() -> Result<Self, GpioControllerError>;

    /// Drives pin `pin_id` high.
    fn turn_on_pin(&self, pin_id: u8) -> Result<Self::T, GpioControllerError>;

    /// Drives pin `pin_id` low.
    fn turn_off_pin(&self, pin_id: u8) -> Result<Self::T, GpioControllerError>;
}

/// A controller with no hardware behind it: every operation succeeds.
#[derive(Clone, Copy, Debug)]
pub struct MockGpioController;

impl GpioController for MockGpioController {
    type T = ();

    fn new() -> (r: Result<Self, GpioControllerError>)
        ensures
            r is Ok,
    {
        Ok(MockGpioController)
    }

    fn turn_on_pin(&self, _pin_id: u8) -> (r: Result<(), GpioControllerError>)
        ensures
            r == Ok::<(), GpioControllerError>(()),
    {
        Ok(())
    }

    fn turn_off_pin(&self, _pin_id: u8) -> (r: Result<(), GpioControllerError>)
        ensures
            r == Ok::<(), GpioControllerError>(()),
    {
        Ok(())
    }
}

} // verus!
