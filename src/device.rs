//! Device selection: which capture and playback devices a session uses.

use crate::config::SessionError;
use vstd::prelude::*;

verus! {

/// The direction of an audio device.
#[derive(Clone, Copy, Debug, PartialEq, Eq, Structural)]
pub enum DeviceType {
    Input,
    Output,
}

impl DeviceType {
    /// The direction's name, as shown to the user: 输入 for input, 输出
    /// for output.
    pub fn name(&self) -> (r: &'static str)
        ensures
            r@ == (match self {
                DeviceType::Input => "输入"@,
                DeviceType::Output => "输出"@,
            }),
    {
        proof {
            reveal_strlit("输入");
            reveal_strlit("输出");
        }
        match self {
            DeviceType::Input => "输入",
            DeviceType::Output => "输出",
        }
    }
}

/// The devices, in enumeration order, whose flag says that they expose a
/// usable default configuration for the direction asked for.
pub open spec fn usable<D>(devices: Seq<(D, bool)>) -> Seq<D>
    decreases devices.len(),
{
    if devices.len() == 0 {
        Seq::empty()
    } else {
        (if devices[0].1 {
            seq![devices[0].0]
        } else {
            Seq::empty()
        }) + usable(devices.drop_first())
    }
}

/// Keeps the devices whose flag is set, in their order.
fn keep_usable<D>(devices: Vec<(D, bool)>) -> (r: Vec<D>)
    ensures
        r@ == usable(devices@),
{
    let ghost all = devices@;
    let mut rest = devices;
    let mut kept: Vec<D> = Vec::new();
    while rest.len() > 0
        invariant
            usable(all) == kept@ + usable(rest@),
        decreases rest@.len(),
    {
        let ghost before = rest@;
        let (device, ok) = rest.remove(0);
        assert(before.drop_first() =~= rest@);
        if ok {
            kept.push(device);
            assert(usable(all) =~= kept@ + usable(rest@));
        } else {
            assert(usable(all) =~= kept@ + usable(rest@));
        }
    }
    assert(kept@ + usable(rest@) =~= kept@);
    kept
}

/// The capture and playback devices chosen for a session.
pub struct DeviceManager<D> {
    pub input_device: Option<D>,
    pub output_device: Option<D>,
}

impl<D> DeviceManager<D> {
    /// A manager with no device chosen.
    pub fn new() -> (r: DeviceManager<D>)
        ensures
            r.input_device.is_none(),
            r.output_device.is_none(),
    {
        DeviceManager { input_device: None, output_device: None }
    }

    /// The device chosen for a direction.
    pub open spec fn chosen(&self, device_type: DeviceType) -> Option<D> {
        match device_type {
            DeviceType::Input => self.input_device,
            DeviceType::Output => self.output_device,
        }
    }

    fn set_device(&mut self, device_type: DeviceType, device: D)
        ensures
            final(self).chosen(device_type) == Some(device),
            device_type == DeviceType::Input ==> final(self).output_device
                == old(self).output_device,
            device_type == DeviceType::Output ==> final(self).input_device
                == old(self).input_device,
    {
        match device_type {
            DeviceType::Input => self.input_device = Some(device),
            DeviceType::Output => self.output_device = Some(device),
        }
    }

    /// Chooses the device at `index` among the usable ones for a direction.
    /// `devices` lists every enumerated device, in order, with a flag that
    /// says whether it exposes a usable default configuration for that
    /// direction. Fails when no device is usable, or when `index` is past
    /// the last usable one; the choice is then left as it was.
    pub fn select_device(
        &mut self,
        device_type: DeviceType,
        devices: Vec<(D, bool)>,
        index: usize,
    ) -> (r: Result<(), SessionError>)
        ensures
            usable(devices@).len() == 0 ==> r == Err::<(), SessionError>(
                SessionError::NoDevicesAvailable,
            ),
            usable(devices@).len() > 0 && index >= usable(devices@).len() ==> r == Err::<
                (),
                SessionError,
            >(SessionError::DeviceIndexOutOfRange),
            r.is_err() ==> *final(self) == *old(self),
            index < usable(devices@).len() ==> {
                &&& r.is_ok()
                &&& final(self).chosen(device_type) == Some(usable(devices@)[index as int])
                &&& device_type == DeviceType::Input ==> final(self).output_device
                    == old(self).output_device
                &&& device_type == DeviceType::Output ==> final(self).input_device
                    == old(self).input_device
            },
    {
        let mut candidates = keep_usable(devices);
        if candidates.len() == 0 {
            return Err(SessionError::NoDevicesAvailable);
        }
        if index >= candidates.len() {
            return Err(SessionError::DeviceIndexOutOfRange);
        }
        let device = candidates.remove(index);
        self.set_device(device_type, device);
        Ok(())
    }

    /// Hands out the two chosen devices, capture first, when both are
    /// chosen.
    pub fn into_devices(self) -> (r: Option<(D, D)>)
        ensures
            r.is_some() <==> (self.input_device.is_some() && self.output_device.is_some()),
            match r {
                Some((input, output)) => Some(input) == self.input_device && Some(output)
                    == self.output_device,
                None => true,
            },
    {
        match (self.input_device, self.output_device) {
            (Some(input), Some(output)) => Some((input, output)),
            _ => None,
        }
    }
}

impl<D> Default for DeviceManager<D> {
    fn default() -> (r: DeviceManager<D>)
        ensures
            r.input_device.is_none(),
            r.output_device.is_none(),
    {
        DeviceManager::new()
    }
}

} // verus!
