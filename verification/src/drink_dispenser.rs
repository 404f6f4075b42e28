use vstd::prelude::*;
use crate::gpio::{GpioController, GpioControllerError};

verus! {

/// Why the drink dispenser could not handle an event.
#[derive(Clone, Copy, Debug, PartialEq, Eq, Structural)]
pub enum DrinkDispenserError {
    PinError,
    GpioError(GpioControllerError),
}

impl DrinkDispenserError {
    /// The text a user sees for this error; a GPIO error shows its own text.
    pub fn message(&self) -> (r: &'static str)
        ensures
            self is PinError ==> r@ == "Unexpected pin error"@,
            self matches DrinkDispenserError::GpioError(e) ==> r@ == (if e is Unavailable {
                "GPIO controller unavailable"@
            } else {
                "GPIO pin fault"@
            }),
    {
        match self {
            DrinkDispenserError::PinError => "Unexpected pin error",
            DrinkDispenserError::GpioError(e) => e.message(),
        }
    }
}

impl From<GpioControllerError> for DrinkDispenserError {
    fn from(e: GpioControllerError) -> (r: DrinkDispenserError) {
        DrinkDispenserError::GpioError(e)
    }
}

impl vstd::std_specs::convert::FromSpecImpl<GpioControllerError> for DrinkDispenserError {
    open spec fn obeys_from_spec() -> bool {
        true
    }

    open spec fn from_spec(v: GpioControllerError) -> DrinkDispenserError {
        DrinkDispenserError::GpioError(v)
    }
}

/// What can happen to a drink dispenser.
#[derive(Clone, Copy, Debug, PartialEq, Eq, Structural)]
pub enum DrinkDispenserEvent {
    TurnOn,
    TurnOff,
    StartDrinkDispensing,
    StopDrinkDispensing,
    DrinkDispensed,
    MachineMalfunction,
    TurnOnGpioPin { gpio_pin: u8 },
    TurnOffGpioPin { gpio_pin: u8 },
}

/// Why a dispenser is out of order.
#[derive(Clone, Copy, Debug, PartialEq, Eq, Structural)]
pub enum OutOfOrder {
    RestockRequired,
    HardwareFault,
}

/// The states of a drink dispenser.
#[derive(Clone, Copy, Debug, PartialEq, Eq, Structural)]
pub enum DrinkDispenserState {
    OutOfOrder(OutOfOrder),
    Idle,
    DispensingDrink,
}

/// What a dispenser reports once it has done its work.
#[derive(Debug, PartialEq)]
pub struct DrinkDispenserOutput;

/// The GPIO pins the dispenser's hardware is wired to.
#[derive(Debug, Clone, Copy)]
pub struct GpioPinMap {
    drink_dispenser: u8,
}

impl GpioPinMap {
    /// The pin that drives the drink pump.
    pub closed spec fn dispenser_pin_spec(&self) -> u8 {
        self.drink_dispenser
    }

    /// The pin that drives the drink pump.
    pub fn dispenser_pin(&self) -> (r: u8)
        ensures
            r == self.dispenser_pin_spec(),
    {
        self.drink_dispenser
    }
}

impl Default for GpioPinMap {
    /// The pump sits on pin 17.
    fn default() -> (r: GpioPinMap)
        ensures
            r.dispenser_pin_spec() == 17,
    {
        GpioPinMap { drink_dispenser: 17 }
    }
}

/// The state a dispenser in `state` moves to on `event`, when no hardware
/// call fails: power events reset it to idle, a start request begins (or
/// keeps) dispensing unless the machine is out of order, a stop request ends
/// dispensing, and every other event leaves the state as it is.
pub open spec fn next_state(state: DrinkDispenserState, event: DrinkDispenserEvent) -> DrinkDispenserState {
    match event {
        DrinkDispenserEvent::TurnOn => DrinkDispenserState::Idle,
        DrinkDispenserEvent::TurnOff => DrinkDispenserState::Idle,
        DrinkDispenserEvent::StartDrinkDispensing => match state {
            DrinkDispenserState::Idle => DrinkDispenserState::DispensingDrink,
            _ => state,
        },
        DrinkDispenserEvent::StopDrinkDispensing => match state {
            DrinkDispenserState::DispensingDrink => DrinkDispenserState::Idle,
            _ => state,
        },
        _ => state,
    }
}

/// Whether handling `event` in `state` switches the pump's pin on: only a
/// start request while idle does.
pub open spec fn switches_pump_on(state: DrinkDispenserState, event: DrinkDispenserEvent) -> bool {
    state is Idle && event is StartDrinkDispensing
}

/// Turning the dispenser on or off resets it to idle, whatever state it is in.
pub proof fn lemma_power_events_reset(state: DrinkDispenserState)
    ensures
        next_state(state, DrinkDispenserEvent::TurnOn) == DrinkDispenserState::Idle,
        next_state(state, DrinkDispenserEvent::TurnOff) == DrinkDispenserState::Idle,
{
}

/// An out-of-order dispenser stays out of order, for the same reason, until it
/// is turned on or off.
pub proof fn lemma_out_of_order_persists(reason: OutOfOrder, event: DrinkDispenserEvent)
    requires
        !(event is TurnOn),
        !(event is TurnOff),
    ensures
        next_state(DrinkDispenserState::OutOfOrder(reason), event) == DrinkDispenserState::OutOfOrder(
            reason,
        ),
{
}

/// Events other than power, start and stop requests never change the state.
pub proof fn lemma_other_events_keep_state(state: DrinkDispenserState, event: DrinkDispenserEvent)
    requires
        !(event is TurnOn),
        !(event is TurnOff),
        !(event is StartDrinkDispensing),
        !(event is StopDrinkDispensing),
    ensures
        next_state(state, event) == state,
{
}

/// Handling the same event twice in a row ends where handling it once does.
pub proof fn lemma_repeated_event_is_idempotent(state: DrinkDispenserState, event: DrinkDispenserEvent)
    ensures
        next_state(next_state(state, event), event) == next_state(state, event),
{
}

/// A start request on an idle dispenser followed by a stop request brings it
/// back to idle, dispensing in between.
pub proof fn lemma_dispense_cycle()
    ensures
        next_state(DrinkDispenserState::Idle, DrinkDispenserEvent::StartDrinkDispensing)
            == DrinkDispenserState::DispensingDrink,
        next_state(DrinkDispenserState::DispensingDrink, DrinkDispenserEvent::StopDrinkDispensing)
            == DrinkDispenserState::Idle,
{
}

/// The pump's pin is switched on exactly when an idle dispenser starts
/// dispensing.
pub proof fn lemma_pump_switched_on_only_when_starting(state: DrinkDispenserState, event: DrinkDispenserEvent)
    ensures
        switches_pump_on(state, event) <==> (state is Idle && next_state(state, event) is DispensingDrink),
{
}

/// What a dispenser reports after asking its controller to switch a pin,
/// given what the controller returned: success, or the controller's error.
pub open spec fn switch_outcome<X>(switched: Result<X, GpioControllerError>) -> Result<(), DrinkDispenserError> {
    match switched {
        Ok(_) => Ok(()),
        Err(e) => Err(DrinkDispenserError::GpioError(e)),
    }
}

/// What a dispenser reports after asking its controller to switch a pin,
/// given what the controller returned.
pub fn gpio_outcome<X>(switched: Result<X, GpioControllerError>) -> (r: Result<(), DrinkDispenserError>)
    ensures
        r == switch_outcome(switched),
{
    match switched {
        Ok(_) => Ok(()),
        Err(e) => Err(DrinkDispenserError::from(e)),
    }
}

/// A start request begins dispensing on an idle dispenser and keeps a
/// dispensing one dispensing; a stop request makes a dispensing dispenser
/// idle and leaves an idle one idle.
pub proof fn lemma_start_and_stop_requests()
    ensures
        next_state(DrinkDispenserState::Idle, DrinkDispenserEvent::StartDrinkDispensing)
            == DrinkDispenserState::DispensingDrink,
        next_state(DrinkDispenserState::DispensingDrink, DrinkDispenserEvent::StartDrinkDispensing)
            == DrinkDispenserState::DispensingDrink,
        next_state(DrinkDispenserState::DispensingDrink, DrinkDispenserEvent::StopDrinkDispensing)
            == DrinkDispenserState::Idle,
        next_state(DrinkDispenserState::Idle, DrinkDispenserEvent::StopDrinkDispensing)
            == DrinkDispenserState::Idle,
{
}

/// A drink dispenser: its current state, its wiring, and the controller that
/// drives its pins. The controller is private, so verified code outside this
/// module cannot read the fields directly: it reads them with `state()` and
/// `gpio_pin_map()`, changes the state with `set_state`, and speaks of them in
/// contracts as `current_state()` and `wiring()`.
#[derive(Debug, Clone)]
pub struct DrinkDispenser<T: GpioController + Clone> {
    pub state: DrinkDispenserState,
    pub gpio_pin_map: GpioPinMap,
    gpio_controller: T,
}

impl<T: GpioController + Clone> DrinkDispenser<T> {
    /// The state the dispenser is in: the value of the public field `state`.
    pub closed spec fn current_state(&self) -> DrinkDispenserState {
        self.state
    }

    /// The dispenser's wiring: the value of the public field `gpio_pin_map`.
    pub closed spec fn wiring(&self) -> GpioPinMap {
        self.gpio_pin_map
    }

    /// The controller that drives the pins.
    pub closed spec fn controller(&self) -> T {
        self.gpio_controller
    }

    /// The state the dispenser is in.
    pub fn state(&self) -> (r: DrinkDispenserState)
        ensures
            r == self.current_state(),
    {
        self.state
    }

    /// The dispenser's wiring.
    pub fn gpio_pin_map(&self) -> (r: GpioPinMap)
        ensures
            r == self.wiring(),
    {
        self.gpio_pin_map
    }

    /// An idle dispenser wired as `GpioPinMap::default()` says.
    pub fn new(gpio_controller: T) -> (r: Self)
        ensures
            r.current_state() == DrinkDispenserState::Idle,
            r.wiring().dispenser_pin_spec() == 17,
            r.controller() == gpio_controller,
    {
        DrinkDispenser { state: DrinkDispenserState::Idle, gpio_pin_map: GpioPinMap::default(), gpio_controller }
    }

    /// The same dispenser in `state`.
    pub fn set_state(self, state: DrinkDispenserState) -> (r: Self)
        ensures
            r.current_state() == state,
            r.wiring() == self.wiring(),
            r.controller() == self.controller(),
    {
        let mut dispenser = self;
        dispenser.state = state;
        dispenser
    }

    /// Asks the controller to switch pin `gpio_pin` on; the result is what the
    /// controller returned for that pin, with its error wrapped.
    fn start_dispensing(&mut self, gpio_pin: u8) -> (r: Result<(), DrinkDispenserError>)
        ensures
            *final(self) == *old(self),
            exists|switched: Result<T::T, GpioControllerError>|
                call_ensures(T::turn_on_pin, (&old(self).gpio_controller, gpio_pin), switched)
                && r == switch_outcome(switched),
    {
        let switched = self.gpio_controller.turn_on_pin(gpio_pin);
        gpio_outcome(switched)
    }

    /// Asks the controller to switch pin `gpio_pin` off; the result is what the
    /// controller returned for that pin, with its error wrapped.
    #[allow(dead_code)]
    fn stop_dispending(&mut self, gpio_pin: u8) -> (r: Result<(), DrinkDispenserError>)
        ensures
            *final(self) == *old(self),
            exists|switched: Result<T::T, GpioControllerError>|
                call_ensures(T::turn_off_pin, (&old(self).gpio_controller, gpio_pin), switched)
                && r == switch_outcome(switched),
    {
        let switched = self.gpio_controller.turn_off_pin(gpio_pin);
        gpio_outcome(switched)
    }

    /// The state the dispenser moves to on `event`. The dispenser itself is
    /// left as it is: its caller records the new state (see `set_state`).
    /// A start request while idle switches the pump's pin on first, and
    /// fails with the controller's error if that fails.
    pub fn handle_event(&mut self, event: DrinkDispenserEvent) -> (r: Result<DrinkDispenserState, DrinkDispenserError>)
        ensures
            *final(self) == *old(self),
            match r {
                Ok(s) => s == next_state(old(self).current_state(), event),
                Err(e) => switches_pump_on(old(self).current_state(), event) && e is GpioError,
            },
            !switches_pump_on(old(self).current_state(), event) ==> r == Ok::<DrinkDispenserState, DrinkDispenserError>(
                next_state(old(self).current_state(), event),
            ),
            switches_pump_on(old(self).current_state(), event) ==> exists|switched: Result<
                T::T,
                GpioControllerError,
            >|
                call_ensures(
                    T::turn_on_pin,
                    (&old(self).controller(), old(self).wiring().dispenser_pin_spec()),
                    switched,
                ) && r == match switch_outcome(switched) {
                    Ok(_) => Ok::<DrinkDispenserState, DrinkDispenserError>(
                        DrinkDispenserState::DispensingDrink,
                    ),
                    Err(e) => Err(e),
                },
    {
        let state = match (self.state, event) {
            (_, DrinkDispenserEvent::TurnOn) => DrinkDispenserState::Idle,
            (_, DrinkDispenserEvent::TurnOff) => DrinkDispenserState::Idle,
            (DrinkDispenserState::Idle, DrinkDispenserEvent::StartDrinkDispensing) => {
                let pin = self.gpio_pin_map.drink_dispenser;
                let started = self.start_dispensing(pin);
                let ghost switched = choose|switched: Result<T::T, GpioControllerError>|
                    call_ensures(T::turn_on_pin, (&old(self).gpio_controller, pin), switched)
                    && started == switch_outcome(switched);
                assert(call_ensures(
                    T::turn_on_pin,
                    (&old(self).controller(), old(self).wiring().dispenser_pin_spec()),
                    switched,
                ));
                match started {
                    Ok(()) => {},
                    Err(e) => {
                        return Err(e);
                    },
                }
                DrinkDispenserState::DispensingDrink
            },
            (DrinkDispenserState::DispensingDrink, DrinkDispenserEvent::StartDrinkDispensing) => {
                DrinkDispenserState::DispensingDrink
            },
            (DrinkDispenserState::DispensingDrink, DrinkDispenserEvent::StopDrinkDispensing) => {
                DrinkDispenserState::Idle
            },
            (current_state, _) => current_state,
        };
        Ok(state)
    }
}

} // verus!
