use vstd::prelude::*;

use crate::echo::{EchoHandler, EchoView, Phase};
use crate::slot::Slot;

verus! {

/// The registry as plain values.
pub ghost struct RegistryView<B, D, S, T> {
    pub bus: Option<B>,
    pub device: Option<D>,
    pub serial: Option<S>,
    pub display: Option<T>,
    pub armed: bool,
    pub echo: EchoView,
}

impl<B, D, S, T> RegistryView<B, D, S, T> {
    /// Every slot has been filled.
    pub open spec fn wired(self) -> bool {
        &&& self.bus is Some
        &&& self.device is Some
        &&& self.serial is Some
        &&& self.display is Some
    }

    /// The handler is well formed, an armed registry is fully wired, and no
    /// invocation has run before arming.
    pub open spec fn wf(self) -> bool {
        &&& self.echo.wf()
        &&& (self.armed ==> self.wired())
        &&& (!self.armed ==> !self.echo.said_hello && self.echo.phase == Phase::Idle)
    }
}

/// The driver objects shared between start-up and the USB interrupt: the
/// bus allocator `B`, the USB device `D`, the serial class `S` and the
/// display sink `T`, with the echo handler's own state.
///
/// Start-up fills each slot once, the bus first, then arms the interrupt;
/// only an armed registry hands its objects out, so no slot is ever read
/// before it is filled.
pub struct Registry<B, D, S, T> {
    bus: Slot<B>,
    device: Slot<D>,
    serial: Slot<S>,
    display: Slot<T>,
    armed: bool,
    echo: EchoHandler,
}

impl<B, D, S, T> View for Registry<B, D, S, T> {
    type V = RegistryView<B, D, S, T>;

    closed spec fn view(&self) -> RegistryView<B, D, S, T> {
        RegistryView {
            bus: self.bus@,
            device: self.device@,
            serial: self.serial@,
            display: self.display@,
            armed: self.armed,
            echo: self.echo@,
        }
    }
}

impl<B, D, S, T> Registry<B, D, S, T> {
    /// An empty, unarmed registry.
    pub fn new() -> (r: Self)
        ensures
            r@.wf(),
            r@.bus is None,
            r@.device is None,
            r@.serial is None,
            r@.display is None,
            !r@.armed,
    {
        Registry {
            bus: Slot::empty(),
            device: Slot::empty(),
            serial: Slot::empty(),
            display: Slot::empty(),
            armed: false,
            echo: EchoHandler::new(),
        }
    }

    /// Installs the bus allocator, before anything built from it.
    pub fn install_bus(&mut self, bus: B)
        requires
            old(self)@.wf(),
            !old(self)@.armed,
            old(self)@.bus is None,
        ensures
            final(self)@ == (RegistryView { bus: Some(bus), ..old(self)@ }),
            final(self)@.wf(),
    {
        self.bus.install(bus);
    }

    /// The installed bus allocator, lent to the objects built on it.
    pub fn bus(&self) -> (r: &B)
        requires
            self@.bus is Some,
        ensures
            *r == self@.bus->Some_0,
    {
        self.bus.get()
    }

    /// Installs the serial class, which is built on the installed bus.
    pub fn install_serial(&mut self, serial: S)
        requires
            old(self)@.wf(),
            !old(self)@.armed,
            old(self)@.bus is Some,
            old(self)@.serial is None,
        ensures
            final(self)@ == (RegistryView { serial: Some(serial), ..old(self)@ }),
            final(self)@.wf(),
    {
        self.serial.install(serial);
    }

    /// Installs the USB device, which is built on the installed bus.
    pub fn install_device(&mut self, device: D)
        requires
            old(self)@.wf(),
            !old(self)@.armed,
            old(self)@.bus is Some,
            old(self)@.device is None,
        ensures
            final(self)@ == (RegistryView { device: Some(device), ..old(self)@ }),
            final(self)@.wf(),
    {
        self.device.install(device);
    }

    /// Installs the display sink.
    pub fn install_display(&mut self, display: T)
        requires
            old(self)@.wf(),
            !old(self)@.armed,
            old(self)@.display is None,
        ensures
            final(self)@ == (RegistryView { display: Some(display), ..old(self)@ }),
            final(self)@.wf(),
    {
        self.display.install(display);
    }

    /// Whether every slot has been filled.
    pub fn is_wired(&self) -> (r: bool)
        ensures
            r == self@.wired(),
    {
        self.bus.is_installed() && self.device.is_installed() && self.serial.is_installed()
            && self.display.is_installed()
    }

    /// Marks the interrupt as unmasked; from here on only the interrupt
    /// context uses the registry.
    pub fn arm(&mut self)
        requires
            old(self)@.wf(),
            old(self)@.wired(),
        ensures
            final(self)@ == (RegistryView { armed: true, ..old(self)@ }),
            final(self)@.wf(),
    {
        self.armed = true;
    }

    /// Whether the interrupt has been armed.
    pub fn is_armed(&self) -> (r: bool)
        ensures
            r == self@.armed,
    {
        self.armed
    }

    /// The objects the interrupt routine works with: device, serial class,
    /// display sink and echo handler. Only an armed registry hands them out.
    pub fn parts(&mut self) -> (r: (&mut D, &mut S, &mut T, &mut EchoHandler))
        requires
            old(self)@.wf(),
            old(self)@.armed,
        ensures
            *r.0 == old(self)@.device->Some_0,
            *r.1 == old(self)@.serial->Some_0,
            *r.2 == old(self)@.display->Some_0,
            r.3@ == old(self)@.echo,
            final(self)@ == (RegistryView {
                device: Some(*final(r.0)),
                serial: Some(*final(r.1)),
                display: Some(*final(r.2)),
                echo: final(r.3)@,
                ..old(self)@
            }),
    {
        (self.device.get_mut(), self.serial.get_mut(), self.display.get_mut(), &mut self.echo)
    }
}

} // verus!
