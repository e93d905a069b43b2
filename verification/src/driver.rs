//! Driver support.

use vstd::prelude::*;

verus! {

/// Device driver functions.
pub trait DeviceDriver {
    /// Return a compatibility string for identifying the driver.
    fn compatible(&self) -> &'static str;

    /// Called by the kernel to bring up the device.
    fn init(&self) -> (r: Result<(), ()>)
        default_ensures
            r is Ok,
    {
        Ok(())
    }

    /// Called by the kernel to register and enable the device's IRQ handlers, if any.
    fn register_and_enable_irq_handler(&'static self) -> (r: Result<(), &'static str>)
        default_ensures
            r is Ok,
    {
        Ok(())
    }
}

/// Device driver management functions. The board support package supplies one global instance.
pub trait DriverManager {
    /// Return a slice of references to all drivers the board instantiates, in the order in which
    /// they are initialized.
    fn all_device_drivers(&self) -> &[&'static dyn DeviceDriver];

    /// Initialization code that runs after driver init.
    fn post_device_driver_init(&self);
}

} // verus!
