//! Platform abstraction for the native clipboard, and the per-OS types.
use vstd::prelude::*;
use vstd::string::*;
use crate::protocol::DisplayInfo;

verus! {

/// Errors reported by a platform backend
#[derive(Debug)]
pub enum PlatformError {
    PermissionDenied(String),
    HookFailed(String),
    InjectionFailed(String),
    OsError(String),
}

/// The human-readable rendering of a platform error.
pub open spec fn platform_error_message(e: PlatformError) -> Seq<char> {
    match e {
        PlatformError::PermissionDenied(s) => "Permission denied: "@ + s@,
        PlatformError::HookFailed(s) => "Hook initialization failed: "@ + s@,
        PlatformError::InjectionFailed(s) => "Injection failed: "@ + s@,
        PlatformError::OsError(s) => "OS error: "@ + s@,
    }
}

impl PlatformError {
    /// The human-readable rendering of this error.
    pub fn message(&self) -> (r: String)
        ensures
            r@ == platform_error_message(*self),
    {
        match self {
            PlatformError::PermissionDenied(s) => {
                let mut m = String::from_str("Permission denied: ");
                m.append(s.as_str());
                m
            },
            PlatformError::HookFailed(s) => {
                let mut m = String::from_str("Hook initialization failed: ");
                m.append(s.as_str());
                m
            },
            PlatformError::InjectionFailed(s) => {
                let mut m = String::from_str("Injection failed: ");
                m.append(s.as_str());
                m
            },
            PlatformError::OsError(s) => {
                let mut m = String::from_str("OS error: ");
                m.append(s.as_str());
                m
            },
        }
    }
}

/// Native clipboard monitoring and setting
pub trait ClipboardHandler: Send + Sync {
    /// Read text from local clipboard
    fn read_text(&self) -> Result<Option<String>, PlatformError>;

    /// Write text to local clipboard
    fn write_text(&self, text: &str) -> Result<(), PlatformError>;

    /// Read image data (PNG bytes) if present
    fn read_image(&self) -> Result<Option<Vec<u8>>, PlatformError>;

    /// Write image data (PNG bytes)
    fn write_image(&self, png_bytes: &[u8]) -> Result<(), PlatformError>;

    /// Get current clipboard sequence / change counter
    fn get_change_count(&self) -> u64;
}

pub struct LinuxClipboard;

impl ClipboardHandler for LinuxClipboard {
    fn read_text(&self) -> (r: Result<Option<String>, PlatformError>)
        ensures r matches Ok(None),
    {
        Ok(None)
    }

    fn write_text(&self, text: &str) -> (r: Result<(), PlatformError>)
        ensures r is Ok,
    {
        Ok(())
    }

    fn read_image(&self) -> (r: Result<Option<Vec<u8>>, PlatformError>)
        ensures r matches Ok(None),
    {
        Ok(None)
    }

    fn write_image(&self, png_bytes: &[u8]) -> (r: Result<(), PlatformError>)
        ensures r is Ok,
    {
        Ok(())
    }

    fn get_change_count(&self) -> (r: u64)
        ensures r == 0,
    {
        0
    }
}

/// Querying display geometries and scale factors
pub trait ScreenManager: Send + Sync {
    /// Query all active displays on this machine
    fn get_displays(&self) -> Result<Vec<DisplayInfo>, PlatformError>;

    /// Get the primary display
    fn get_primary_display(&self) -> Result<DisplayInfo, PlatformError>;
}

/// Bit pattern of the single-precision scale factor 1.0
pub const SCALE_ONE_BITS: u32 = 0x3f80_0000;

/// The display reported where no display enumeration is available: 1920x1080 at the
/// origin, primary, scale 1.0, with the given id and name.
pub open spec fn is_fallback_display(d: DisplayInfo, id: u32, name: Seq<char>) -> bool {
    &&& d.id == id
    &&& d.name@ == name
    &&& d.width == 1920
    &&& d.height == 1080
    &&& d.scale_factor == SCALE_ONE_BITS
    &&& d.is_primary
    &&& d.x == 0
    &&& d.y == 0
}

/// The index of the first primary display, if any.
pub fn primary_index(displays: &Vec<DisplayInfo>) -> (r: Option<usize>)
    ensures
        r matches Some(i) ==> i < displays@.len() && displays@[i as int].is_primary
            && forall|j: int| 0 <= j < i ==> !(#[trigger] displays@[j]).is_primary,
        r is None ==> forall|j: int| 0 <= j < displays@.len() ==> !(#[trigger] displays@[j]).is_primary,
{
    let mut i: usize = 0;
    while i < displays.len()
        invariant
            i <= displays@.len(),
            forall|j: int| 0 <= j < i ==> !(#[trigger] displays@[j]).is_primary,
        decreases displays@.len() - i,
    {
        if displays[i].is_primary {
            return Some(i);
        }
        i = i + 1;
    }
    None
}

/// The first primary display of `displays`, or an OS error carrying `missing` when
/// there is none.
pub fn primary_display(displays: Vec<DisplayInfo>, missing: String) -> (r: Result<DisplayInfo, PlatformError>)
    ensures
        match r {
            Ok(d) => exists|i: int| 0 <= i < displays@.len() && displays@[i] == d && d.is_primary
                && forall|j: int| 0 <= j < i ==> !(#[trigger] displays@[j]).is_primary,
            Err(e) => (e matches PlatformError::OsError(m) && m@ == missing@)
                && forall|j: int| 0 <= j < displays@.len() ==> !(#[trigger] displays@[j]).is_primary,
        },
{
    let mut displays = displays;
    match primary_index(&displays) {
        Some(i) => {
            let ghost before = displays@;
            let d = displays.swap_remove(i);
            assert(d == before[i as int]);
            Ok(d)
        },
        None => Err(PlatformError::OsError(missing)),
    }
}

/// Linux screen backend: reports a single default display.
pub struct LinuxScreenManager;

/// The 1920x1080 primary display at the origin and scale 1.0, reported where no display
/// enumeration is available.
pub fn fallback_display(id: u32, name: String) -> (r: DisplayInfo)
    ensures
        is_fallback_display(r, id, name@),
{
    DisplayInfo {
        id,
        name,
        width: 1920,
        height: 1080,
        scale_factor: SCALE_ONE_BITS,
        is_primary: true,
        x: 0,
        y: 0,
    }
}

fn default_linux_display() -> (r: DisplayInfo)
    ensures
        is_fallback_display(r, 1, "Default"@),
{
    fallback_display(1, String::from_str("Default"))
}

impl ScreenManager for LinuxScreenManager {
    fn get_displays(&self) -> (r: Result<Vec<DisplayInfo>, PlatformError>)
        ensures
            r matches Ok(v) && v@.len() == 1 && is_fallback_display(v@[0], 1, "Default"@),
    {
        let mut v: Vec<DisplayInfo> = Vec::new();
        v.push(default_linux_display());
        Ok(v)
    }

    fn get_primary_display(&self) -> (r: Result<DisplayInfo, PlatformError>)
        ensures
            r matches Ok(d) && is_fallback_display(d, 1, "Default"@),
    {
        Ok(default_linux_display())
    }
}

} // verus!
