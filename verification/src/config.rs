//! The process-local configuration: ports, the debug-bridge path, the mask
//! window's configured geometry, the active mapping file, language and
//! clipboard synchronization. The label opacity is carried in thousandths.
use vstd::prelude::*;

verus! {

/// The persisted local configuration, owned by the caller and shared behind
/// one synchronization primitive.
#[derive(Debug)]
pub struct LocalConfig {
    pub web_port: u16,
    pub controller_port: u16,
    pub adb_path: String,
    pub vertical_mask_height: u32,
    pub horizontal_mask_width: u32,
    pub vertical_position: (i32, i32),
    pub horizontal_position: (i32, i32),
    pub active_mapping_file: String,
    pub mapping_label_opacity: u32,
    pub language: String,
    pub clipboard_sync: bool,
}

impl Default for LocalConfig {
    /// The configuration a fresh installation starts from.
    fn default() -> (r: LocalConfig)
        ensures
            r.web_port == 27799,
            r.controller_port == 27798,
            r.adb_path@ == "adb"@,
            r.vertical_mask_height == 720,
            r.horizontal_mask_width == 1280,
            r.vertical_position == (100i32, 100i32),
            r.horizontal_position == (100i32, 100i32),
            r.active_mapping_file@ == "default.json"@,
            r.mapping_label_opacity == 300,
            r.language@ == "en-US"@,
            r.clipboard_sync,
    {
        LocalConfig {
            web_port: 27799,
            controller_port: 27798,
            adb_path: "adb".to_owned(),
            vertical_mask_height: 720,
            horizontal_mask_width: 1280,
            vertical_position: (100, 100),
            horizontal_position: (100, 100),
            active_mapping_file: "default.json".to_owned(),
            mapping_label_opacity: 300,
            language: "en-US".to_owned(),
            clipboard_sync: true,
        }
    }
}

impl LocalConfig {
    /// Whether clipboard changes on the main device are mirrored to the host.
    pub fn get_clipboard_sync(&self) -> (r: bool)
        ensures
            r == self.clipboard_sync,
    {
        self.clipboard_sync
    }
}

} // verus!
