//! The process-wide directory of devices currently under control, and the
//! holder of the configured debug-bridge executable path. Both were reworked
//! from ambient statics into explicitly owned values: the caller wraps them
//! in one synchronization primitive and hands a handle to whoever needs them.
use vstd::prelude::*;

verus! {

/// One controlled device: its identifiers, which sockets serve it, whether it
/// is the input-authoritative main device, its human-readable name (filled in
/// after the handshake) and its live screen size (updated on rotation).
pub struct ScrcpyDevice {
    pub device_id: String,
    pub scid: String,
    pub socket_ids: Vec<String>,
    pub name: String,
    pub main: bool,
    pub device_size: (u32, u32),
}

impl ScrcpyDevice {
    /// A freshly accepted device: not yet named, size not yet known.
    pub fn new(device_id: String, scid: String, main: bool, socket_ids: Vec<String>) -> (r:
        ScrcpyDevice)
        ensures
            r.device_id == device_id,
            r.scid == scid,
            r.socket_ids == socket_ids,
            r.name@ == "Unknow"@,
            r.main == main,
            r.device_size == (0u32, 0u32),
    {
        ScrcpyDevice {
            device_id,
            scid,
            socket_ids,
            name: "Unknow".to_owned(),
            main,
            device_size: (0, 0),
        }
    }
}

/// The directory of controlled devices. Devices enter when accepted for
/// control and leave on disconnect or decontrol; at most the lookups below
/// are ever made against it.
pub struct ControlledDevice {
    pub devices: Vec<ScrcpyDevice>,
}

impl ControlledDevice {
    /// Whether some device in the directory carries this session id.
    pub open spec fn spec_is_scid_controlled(self, scid: Seq<char>) -> bool {
        exists|i: int|
            0 <= i < self.devices@.len() && (#[trigger] self.devices@[i]).scid@ == scid
    }

    /// Whether some device in the directory carries this device id.
    pub open spec fn spec_is_device_controlled(self, device_id: Seq<char>) -> bool {
        exists|i: int|
            0 <= i < self.devices@.len() && (#[trigger] self.devices@[i]).device_id@ == device_id
    }

    /// An empty directory.
    pub fn new() -> (r: ControlledDevice)
        ensures
            r.devices@.len() == 0,
    {
        ControlledDevice { devices: Vec::new() }
    }

    /// The devices currently under control.
    pub fn get_device_list(&self) -> (r: &Vec<ScrcpyDevice>)
        ensures
            r == self.devices,
    {
        &self.devices
    }

    /// Whether any device at all is under control.
    pub fn is_any_device_controlled(&self) -> (r: bool)
        ensures
            r == (self.devices@.len() > 0),
    {
        self.devices.len() > 0
    }

    /// Whether the session id belongs to a controlled device.
    pub fn is_scid_controlled(&self, scid: &String) -> (r: bool)
        ensures
            r == self.spec_is_scid_controlled(scid@),
    {
        let n: usize = self.devices.len();
        let mut i: usize = 0;
        while i < n
            invariant
                i <= n == self.devices@.len(),
                forall|k: int| 0 <= k < i ==> (#[trigger] self.devices@[k]).scid@ != scid@,
            decreases n - i,
        {
            if self.devices[i].scid.eq(scid) {
                return true;
            }
            i = i + 1;
        }
        false
    }

    /// Adds a freshly accepted device to the directory.
    pub fn add_device(
        &mut self,
        device_id: String,
        scid: String,
        main: bool,
        socket_ids: Vec<String>,
    )
        ensures
            final(self).devices@.len() == old(self).devices@.len() + 1,
            forall|k: int|
                0 <= k < old(self).devices@.len() ==> final(self).devices@[k] == old(
                    self,
                ).devices@[k],
            ({
                let d = final(self).devices@.last();
                d.device_id == device_id && d.scid == scid && d.main == main && d.socket_ids
                    == socket_ids && d.name@ == "Unknow"@ && d.device_size == (0u32, 0u32)
            }),
    {
        self.devices.push(ScrcpyDevice::new(device_id, scid, main, socket_ids));
    }

    /// Removes every device that carries the session id; removing an unknown
    /// id leaves the directory as it is.
    pub fn remove_device(&mut self, scid: &String)
        ensures
            final(self).devices@ == old(self).devices@.filter(
                |d: ScrcpyDevice| d.scid@ != scid@,
            ),
    {
        let ghost pred = |d: ScrcpyDevice| d.scid@ != scid@;
        let ghost orig = self.devices@;
        let n: usize = self.devices.len();
        let mut kept: Vec<ScrcpyDevice> = Vec::new();
        let mut i: usize = 0;
        while i < n
            invariant
                i <= n == orig.len(),
                self.devices@ == orig.skip(i as int),
                kept@ == orig.take(i as int).filter(pred),
                pred == (|d: ScrcpyDevice| d.scid@ != scid@),
            decreases n - i,
        {
            let d = self.devices.remove(0);
            proof {
                assert(d == orig[i as int]);
                assert(orig.skip(i as int).remove(0) =~= orig.skip(i as int + 1));
                reveal_with_fuel(Seq::<ScrcpyDevice>::filter, 3);
                let single = seq![orig[i as int]];
                assert(orig.take(i as int + 1) =~= orig.take(i as int) + single);
                Seq::<ScrcpyDevice>::filter_distributes_over_add(
                    orig.take(i as int),
                    single,
                    pred,
                );
                assert(single.drop_last() =~= Seq::<ScrcpyDevice>::empty());
                assert(single.last() == orig[i as int]);
                if pred(orig[i as int]) {
                    assert(single.filter(pred) =~= Seq::<ScrcpyDevice>::empty().push(
                        orig[i as int],
                    ));
                } else {
                    assert(single.filter(pred) =~= Seq::<ScrcpyDevice>::empty());
                }
            }
            if !d.scid.eq(scid) {
                kept.push(d);
                assert(kept@ =~= orig.take(i as int + 1).filter(pred));
            } else {
                assert(kept@ =~= orig.take(i as int + 1).filter(pred));
            }
            i = i + 1;
        }
        proof {
            assert(orig.take(n as int) =~= orig);
        }
        self.devices = kept;
    }

    /// Renames the first device that carries the session id; an unknown id
    /// changes nothing.
    pub fn update_device_name(&mut self, scid: &String, name: String)
        ensures
            !old(self).spec_is_scid_controlled(scid@) ==> final(self).devices@ == old(
                self,
            ).devices@,
            old(self).spec_is_scid_controlled(scid@) ==> exists|j: int|
                {
                    &&& 0 <= j < old(self).devices@.len()
                    &&& (#[trigger] old(self).devices@[j]).scid@ == scid@
                    &&& forall|k: int| 0 <= k < j ==> old(self).devices@[k].scid@ != scid@
                    &&& final(self).devices@ == old(self).devices@.update(
                        j,
                        ScrcpyDevice {
                            device_id: old(self).devices@[j].device_id,
                            scid: old(self).devices@[j].scid,
                            socket_ids: old(self).devices@[j].socket_ids,
                            name: name,
                            main: old(self).devices@[j].main,
                            device_size: old(self).devices@[j].device_size,
                        },
                    )
                },
    {
        let n: usize = self.devices.len();
        let mut i: usize = 0;
        while i < n
            invariant
                i <= n == self.devices@.len(),
                self.devices@ == old(self).devices@,
                forall|k: int| 0 <= k < i ==> (#[trigger] self.devices@[k]).scid@ != scid@,
            decreases n - i,
        {
            if self.devices[i].scid.eq(scid) {
                self.devices[i].name = name;
                proof {
                    assert(old(self).devices@[i as int].scid@ == scid@);
                }
                return ;
            }
            i = i + 1;
        }
    }

    /// Records the new screen size of the first device that carries the
    /// session id; an unknown id changes nothing.
    pub fn update_device_size(&mut self, scid: &String, size: (u32, u32))
        ensures
            !old(self).spec_is_scid_controlled(scid@) ==> final(self).devices@ == old(
                self,
            ).devices@,
            old(self).spec_is_scid_controlled(scid@) ==> exists|j: int|
                {
                    &&& 0 <= j < old(self).devices@.len()
                    &&& (#[trigger] old(self).devices@[j]).scid@ == scid@
                    &&& forall|k: int| 0 <= k < j ==> old(self).devices@[k].scid@ != scid@
                    &&& final(self).devices@ == old(self).devices@.update(
                        j,
                        ScrcpyDevice {
                            device_id: old(self).devices@[j].device_id,
                            scid: old(self).devices@[j].scid,
                            socket_ids: old(self).devices@[j].socket_ids,
                            name: old(self).devices@[j].name,
                            main: old(self).devices@[j].main,
                            device_size: size,
                        },
                    )
                },
    {
        let n: usize = self.devices.len();
        let mut i: usize = 0;
        while i < n
            invariant
                i <= n == self.devices@.len(),
                self.devices@ == old(self).devices@,
                forall|k: int| 0 <= k < i ==> (#[trigger] self.devices@[k]).scid@ != scid@,
            decreases n - i,
        {
            if self.devices[i].scid.eq(scid) {
                self.devices[i].device_size = size;
                proof {
                    assert(old(self).devices@[i as int].scid@ == scid@);
                }
                return ;
            }
            i = i + 1;
        }
    }

    /// The main (input-authoritative) device, if one is controlled.
    pub fn get_main_device(&self) -> (r: Option<&ScrcpyDevice>)
        ensures
            r matches Some(d) ==> exists|i: int|
                0 <= i < self.devices@.len() && *d == self.devices@[i] && d.main,
            r is None ==> forall|i: int| 0 <= i < self.devices@.len() ==> !self.devices@[i].main,
    {
        let n: usize = self.devices.len();
        let mut i: usize = 0;
        while i < n
            invariant
                i <= n == self.devices@.len(),
                forall|k: int| 0 <= k < i ==> !self.devices@[k].main,
            decreases n - i,
        {
            if self.devices[i].main {
                let d = &self.devices[i];
                proof {
                    assert(0 <= i < self.devices@.len() && *d == self.devices@[i as int] && d.main);
                }
                return Some(d);
            }
            i = i + 1;
        }
        None
    }
}

/// The configured path of the device-bridge executable.
pub struct AdbPath {
    pub path: String,
}

impl AdbPath {
    /// The default path: the bare executable name, resolved by the system.
    pub fn new() -> (r: AdbPath)
        ensures
            r.path@ == "adb"@,
    {
        AdbPath { path: "adb".to_owned() }
    }

    /// The configured path.
    pub fn get(&self) -> (r: String)
        ensures
            r == self.path,
    {
        self.path.clone()
    }

    /// Replaces the configured path.
    pub fn set(&mut self, path: String)
        ensures
            final(self).path == path,
    {
        self.path = path;
    }
}

} // verus!
