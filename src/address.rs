//! Bus address selection through the expander's ADDR pin.
use vstd::prelude::*;

verus! {

/// Bus address of the expander when its ADDR pin is tied low.
pub const IOEXP_ADDR_LOW: u8 = 0x20;

/// Bus address of the expander when its ADDR pin is tied high.
pub const IOEXP_ADDR_HIGH: u8 = 0x21;

/// Level of the ADDR pin, which fixes the device's 7-bit bus address.
#[derive(Copy, Clone, Eq, PartialEq, Ord, PartialOrd, Debug)]
pub enum AddrPinState {
    High,
    Low,
}

impl AddrPinState {
    /// The bus address that this pin level selects.
    pub open spec fn spec_address(self) -> u8 {
        match self {
            AddrPinState::High => IOEXP_ADDR_HIGH,
            AddrPinState::Low => IOEXP_ADDR_LOW,
        }
    }

    /// Resolves the pin level to the device's bus address: `0x21` when high,
    /// `0x20` when low.
    #[must_use]
    pub fn address(&self) -> (r: u8)
        ensures
            r == self.spec_address(),
            *self == AddrPinState::High ==> r == 0x21,
            *self == AddrPinState::Low ==> r == 0x20,
    {
        match self {
            AddrPinState::High => IOEXP_ADDR_HIGH,
            AddrPinState::Low => IOEXP_ADDR_LOW,
        }
    }
}

/// Address resolution never yields anything but the two addresses of the
/// expander, and the two pin levels never share an address.
pub proof fn lemma_address_resolution(pin: AddrPinState)
    ensures
        pin.spec_address() == IOEXP_ADDR_LOW || pin.spec_address() == IOEXP_ADDR_HIGH,
        (pin.spec_address() == IOEXP_ADDR_LOW) <==> pin == AddrPinState::Low,
        (pin.spec_address() == IOEXP_ADDR_HIGH) <==> pin == AddrPinState::High,
{
}

} // verus!
