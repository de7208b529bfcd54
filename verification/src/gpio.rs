use vstd::prelude::*;

verus! {

/// Alternate function 12: the function selection under which a pin is routed
/// to the flexible memory controller.
pub struct AF12;

/// Input mode, the reset state of a pin.  A pin in this mode carries no
/// memory-bus role capability.
pub struct Input;

/// Alternate-function mode with function selection `AF`.
pub struct Alternate<AF> {
    /// The selected alternate function.
    pub af: AF,
}

/// Pin 0 of port C, in electrical mode `MODE`.
pub struct PC0<MODE> {
    /// The pin's electrical configuration.
    pub mode: MODE,
}

/// Pin 0 of port D, in electrical mode `MODE`.
pub struct PD0<MODE> {
    /// The pin's electrical configuration.
    pub mode: MODE,
}

/// Pin 1 of port D, in electrical mode `MODE`.
pub struct PD1<MODE> {
    /// The pin's electrical configuration.
    pub mode: MODE,
}

/// Pin 8 of port D, in electrical mode `MODE`.
pub struct PD8<MODE> {
    /// The pin's electrical configuration.
    pub mode: MODE,
}

/// Pin 9 of port D, in electrical mode `MODE`.
pub struct PD9<MODE> {
    /// The pin's electrical configuration.
    pub mode: MODE,
}

/// Pin 10 of port D, in electrical mode `MODE`.
pub struct PD10<MODE> {
    /// The pin's electrical configuration.
    pub mode: MODE,
}

/// Pin 14 of port D, in electrical mode `MODE`.
pub struct PD14<MODE> {
    /// The pin's electrical configuration.
    pub mode: MODE,
}

/// Pin 15 of port D, in electrical mode `MODE`.
pub struct PD15<MODE> {
    /// The pin's electrical configuration.
    pub mode: MODE,
}

/// Pin 0 of port E, in electrical mode `MODE`.
pub struct PE0<MODE> {
    /// The pin's electrical configuration.
    pub mode: MODE,
}

/// Pin 1 of port E, in electrical mode `MODE`.
pub struct PE1<MODE> {
    /// The pin's electrical configuration.
    pub mode: MODE,
}

/// Pin 7 of port E, in electrical mode `MODE`.
pub struct PE7<MODE> {
    /// The pin's electrical configuration.
    pub mode: MODE,
}

/// Pin 8 of port E, in electrical mode `MODE`.
pub struct PE8<MODE> {
    /// The pin's electrical configuration.
    pub mode: MODE,
}

/// Pin 9 of port E, in electrical mode `MODE`.
pub struct PE9<MODE> {
    /// The pin's electrical configuration.
    pub mode: MODE,
}

/// Pin 10 of port E, in electrical mode `MODE`.
pub struct PE10<MODE> {
    /// The pin's electrical configuration.
    pub mode: MODE,
}

/// Pin 11 of port E, in electrical mode `MODE`.
pub struct PE11<MODE> {
    /// The pin's electrical configuration.
    pub mode: MODE,
}

/// Pin 12 of port E, in electrical mode `MODE`.
pub struct PE12<MODE> {
    /// The pin's electrical configuration.
    pub mode: MODE,
}

/// Pin 13 of port E, in electrical mode `MODE`.
pub struct PE13<MODE> {
    /// The pin's electrical configuration.
    pub mode: MODE,
}

/// Pin 14 of port E, in electrical mode `MODE`.
pub struct PE14<MODE> {
    /// The pin's electrical configuration.
    pub mode: MODE,
}

/// Pin 15 of port E, in electrical mode `MODE`.
pub struct PE15<MODE> {
    /// The pin's electrical configuration.
    pub mode: MODE,
}

/// Pin 0 of port F, in electrical mode `MODE`.
pub struct PF0<MODE> {
    /// The pin's electrical configuration.
    pub mode: MODE,
}

/// Pin 1 of port F, in electrical mode `MODE`.
pub struct PF1<MODE> {
    /// The pin's electrical configuration.
    pub mode: MODE,
}

/// Pin 2 of port F, in electrical mode `MODE`.
pub struct PF2<MODE> {
    /// The pin's electrical configuration.
    pub mode: MODE,
}

/// Pin 3 of port F, in electrical mode `MODE`.
pub struct PF3<MODE> {
    /// The pin's electrical configuration.
    pub mode: MODE,
}

/// Pin 4 of port F, in electrical mode `MODE`.
pub struct PF4<MODE> {
    /// The pin's electrical configuration.
    pub mode: MODE,
}

/// Pin 5 of port F, in electrical mode `MODE`.
pub struct PF5<MODE> {
    /// The pin's electrical configuration.
    pub mode: MODE,
}

/// Pin 11 of port F, in electrical mode `MODE`.
pub struct PF11<MODE> {
    /// The pin's electrical configuration.
    pub mode: MODE,
}

/// Pin 12 of port F, in electrical mode `MODE`.
pub struct PF12<MODE> {
    /// The pin's electrical configuration.
    pub mode: MODE,
}

/// Pin 13 of port F, in electrical mode `MODE`.
pub struct PF13<MODE> {
    /// The pin's electrical configuration.
    pub mode: MODE,
}

/// Pin 14 of port F, in electrical mode `MODE`.
pub struct PF14<MODE> {
    /// The pin's electrical configuration.
    pub mode: MODE,
}

/// Pin 15 of port F, in electrical mode `MODE`.
pub struct PF15<MODE> {
    /// The pin's electrical configuration.
    pub mode: MODE,
}

/// Pin 0 of port G, in electrical mode `MODE`.
pub struct PG0<MODE> {
    /// The pin's electrical configuration.
    pub mode: MODE,
}

/// Pin 1 of port G, in electrical mode `MODE`.
pub struct PG1<MODE> {
    /// The pin's electrical configuration.
    pub mode: MODE,
}

/// Pin 4 of port G, in electrical mode `MODE`.
pub struct PG4<MODE> {
    /// The pin's electrical configuration.
    pub mode: MODE,
}

/// Pin 5 of port G, in electrical mode `MODE`.
pub struct PG5<MODE> {
    /// The pin's electrical configuration.
    pub mode: MODE,
}

/// Pin 8 of port G, in electrical mode `MODE`.
pub struct PG8<MODE> {
    /// The pin's electrical configuration.
    pub mode: MODE,
}

/// Pin 15 of port G, in electrical mode `MODE`.
pub struct PG15<MODE> {
    /// The pin's electrical configuration.
    pub mode: MODE,
}

/// Pin 2 of port H, in electrical mode `MODE`.
pub struct PH2<MODE> {
    /// The pin's electrical configuration.
    pub mode: MODE,
}

/// Pin 3 of port H, in electrical mode `MODE`.
pub struct PH3<MODE> {
    /// The pin's electrical configuration.
    pub mode: MODE,
}

/// Pin 8 of port H, in electrical mode `MODE`.
pub struct PH8<MODE> {
    /// The pin's electrical configuration.
    pub mode: MODE,
}

/// Pin 9 of port H, in electrical mode `MODE`.
pub struct PH9<MODE> {
    /// The pin's electrical configuration.
    pub mode: MODE,
}

/// Pin 10 of port H, in electrical mode `MODE`.
pub struct PH10<MODE> {
    /// The pin's electrical configuration.
    pub mode: MODE,
}

/// Pin 11 of port H, in electrical mode `MODE`.
pub struct PH11<MODE> {
    /// The pin's electrical configuration.
    pub mode: MODE,
}

/// Pin 12 of port H, in electrical mode `MODE`.
pub struct PH12<MODE> {
    /// The pin's electrical configuration.
    pub mode: MODE,
}

/// Pin 13 of port H, in electrical mode `MODE`.
pub struct PH13<MODE> {
    /// The pin's electrical configuration.
    pub mode: MODE,
}

/// Pin 14 of port H, in electrical mode `MODE`.
pub struct PH14<MODE> {
    /// The pin's electrical configuration.
    pub mode: MODE,
}

/// Pin 15 of port H, in electrical mode `MODE`.
pub struct PH15<MODE> {
    /// The pin's electrical configuration.
    pub mode: MODE,
}

/// Pin 0 of port I, in electrical mode `MODE`.
pub struct PI0<MODE> {
    /// The pin's electrical configuration.
    pub mode: MODE,
}

/// Pin 1 of port I, in electrical mode `MODE`.
pub struct PI1<MODE> {
    /// The pin's electrical configuration.
    pub mode: MODE,
}

/// Pin 2 of port I, in electrical mode `MODE`.
pub struct PI2<MODE> {
    /// The pin's electrical configuration.
    pub mode: MODE,
}

/// Pin 3 of port I, in electrical mode `MODE`.
pub struct PI3<MODE> {
    /// The pin's electrical configuration.
    pub mode: MODE,
}

/// Pin 4 of port I, in electrical mode `MODE`.
pub struct PI4<MODE> {
    /// The pin's electrical configuration.
    pub mode: MODE,
}

/// Pin 5 of port I, in electrical mode `MODE`.
pub struct PI5<MODE> {
    /// The pin's electrical configuration.
    pub mode: MODE,
}

/// Pin 6 of port I, in electrical mode `MODE`.
pub struct PI6<MODE> {
    /// The pin's electrical configuration.
    pub mode: MODE,
}

/// Pin 7 of port I, in electrical mode `MODE`.
pub struct PI7<MODE> {
    /// The pin's electrical configuration.
    pub mode: MODE,
}

/// Pin 9 of port I, in electrical mode `MODE`.
pub struct PI9<MODE> {
    /// The pin's electrical configuration.
    pub mode: MODE,
}

/// Pin 10 of port I, in electrical mode `MODE`.
pub struct PI10<MODE> {
    /// The pin's electrical configuration.
    pub mode: MODE,
}

} // verus!
