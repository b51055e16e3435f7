//! Identity of this device for cloud synchronization.
use vstd::prelude::*;
use vstd::string::StringExecFns;
use crate::sync::encoding::{base64_encode, base64_standard};
use crate::text::{push_char, push_str};

verus! {

/// Direction of a synchronization.
#[derive(Debug, Clone, Copy, PartialEq, Eq, Structural)]
pub enum SyncDirection {
    /// Send local changes to the cloud.
    Upload,
    /// Fetch changes from the cloud.
    Download,
    /// Both.
    Both,
}

/// Statistics of a cloud synchronization.
#[derive(Debug, Clone, Copy, PartialEq, Eq, Structural)]
pub struct SyncStats {
    pub uploaded: usize,
    pub downloaded: usize,
    pub conflicts: usize,
}

/// The platform name for the operating system name `os` (as Rust names it):
/// macOS, iOS, Windows and Linux by their names, anything else as "cli".
pub open spec fn platform_of(os: Seq<char>) -> Seq<char> {
    if os == "macos"@ || os == "ios"@ || os == "windows"@ || os == "linux"@ {
        os
    } else {
        "cli"@
    }
}

/// Lower-case hexadecimal digit of `d`.
pub open spec fn hex_digit(d: nat) -> char {
    if d < 10 {
        (48 + d) as char
    } else {
        (87 + d) as char
    }
}

/// Two lower-case hexadecimal digits of a byte.
pub open spec fn hex_byte(b: u8) -> Seq<char> {
    seq![hex_digit((b / 16) as nat), hex_digit((b % 16) as nat)]
}

/// A device identifier: the platform, "-local-", and the fingerprint bytes in hexadecimal.
pub open spec fn device_id_text(platform: Seq<char>, fp: Seq<u8>) -> Seq<char> {
    platform + "-local-"@ + hex_byte(fp[0]) + hex_byte(fp[1]) + hex_byte(fp[2]) + hex_byte(fp[3])
}

/// Calls `rand::random::<u8>()`. Nothing is claimed of the byte.
#[verifier::external_body]
fn random_byte() -> (b: u8) {
    rand::random::<u8>()
}

fn push_hex_byte(s: &mut String, b: u8)
    ensures
        final(s)@ == old(s)@ + hex_byte(b),
{
    let hi: u8 = b / 16;
    let lo: u8 = b % 16;
    let c1: char = if hi < 10 {
        (48u8 + hi) as char
    } else {
        (87u8 + hi) as char
    };
    let c2: char = if lo < 10 {
        (48u8 + lo) as char
    } else {
        (87u8 + lo) as char
    };
    push_char(s, c1);
    push_char(s, c2);
    assert(old(s)@ + hex_byte(b) =~= old(s)@.push(c1).push(c2));
}

/// This device's identity towards the cloud: the nonce keys are derived with, and its identifier.
#[derive(Debug)]
pub struct CloudSyncService {
    /// Nonce for key derivation.
    pub kdf_nonce: [u8; 32],
    /// Identifier of this device.
    pub device_id: String,
}

/// A device as the cloud metadata lists it.
#[derive(Debug)]
pub struct DeviceInfo {
    pub device_id: String,
    pub platform: String,
    pub device_name: String,
    /// When the device was last seen, in seconds since the Unix epoch.
    pub last_seen: i64,
    pub sync_count: u64,
}

/// The metadata a new cloud store starts with; it lists no records yet.
#[derive(Debug)]
pub struct CloudMetadata {
    pub format_version: String,
    /// The key derivation nonce in standard base64.
    pub kdf_nonce: String,
    /// Creation time, in seconds since the Unix epoch.
    pub created_at: i64,
    pub updated_at: Option<i64>,
    pub metadata_version: u64,
    pub devices: Vec<DeviceInfo>,
}

/// The statistics of a synchronization that moved nothing.
pub open spec fn no_stats() -> SyncStats {
    SyncStats { uploaded: 0, downloaded: 0, conflicts: 0 }
}

impl CloudSyncService {
    /// A service for this device: copies the nonce and draws a fresh device
    /// identifier for the operating system `os`.
    pub fn new(kdf_nonce: &[u8; 32], os: &str) -> (r: Self)
        ensures
            r.kdf_nonce@ == kdf_nonce@,
            exists|fp: Seq<u8>| fp.len() == 4 && r.device_id@ == device_id_text(platform_of(os@), fp),
    {
        let nonce_array: [u8; 32] = *kdf_nonce;
        let device_id = Self::generate_device_id(os);
        CloudSyncService { kdf_nonce: nonce_array, device_id }
    }

    /// A device identifier from four random bytes.
    pub fn generate_device_id(os: &str) -> (r: String)
        ensures
            exists|fp: Seq<u8>| fp.len() == 4 && r@ == device_id_text(platform_of(os@), fp),
    {
        let fp = [random_byte(), random_byte(), random_byte(), random_byte()];
        let r = Self::device_id_from(os, &fp);
        assert(fp@.len() == 4 && r@ == device_id_text(platform_of(os@), fp@));
        r
    }

    /// The device identifier for the operating system `os` and the given fingerprint.
    pub fn device_id_from(os: &str, fingerprint: &[u8; 4]) -> (r: String)
        ensures
            r@ == device_id_text(platform_of(os@), fingerprint@),
    {
        let mut s = Self::get_platform(os);
        push_str(&mut s, "-local-");
        push_hex_byte(&mut s, fingerprint[0]);
        push_hex_byte(&mut s, fingerprint[1]);
        push_hex_byte(&mut s, fingerprint[2]);
        push_hex_byte(&mut s, fingerprint[3]);
        s
    }

    /// The platform name for the operating system `os`.
    pub fn get_platform(os: &str) -> (r: String)
        ensures
            r@ == platform_of(os@),
    {
        let o = String::from_str(os);
        let macos = String::from_str("macos");
        let ios = String::from_str("ios");
        let windows = String::from_str("windows");
        let linux = String::from_str("linux");
        if o == macos || o == ios || o == windows || o == linux {
            o
        } else {
            String::from_str("cli")
        }
    }

    /// The display name of this device.
    pub fn get_device_name(os: &str) -> (r: String)
        ensures
            r@ == platform_of(os@) + " Device"@,
    {
        let mut s = Self::get_platform(os);
        push_str(&mut s, " Device");
        s
    }

    /// The metadata for a new cloud store: format 1.0, version 1, the nonce
    /// in base64, created and updated at `now`, listing this device as seen
    /// at `now` with no synchronization yet.
    pub fn initial_metadata(&self, os: &str, now: i64) -> (r: CloudMetadata)
        ensures
            r.format_version@ == "1.0"@,
            r.kdf_nonce@ == base64_standard(self.kdf_nonce@),
            r.created_at == now,
            r.updated_at == Some(now),
            r.metadata_version == 1,
            r.devices@.len() == 1,
            r.devices@[0].device_id@ == self.device_id@,
            r.devices@[0].platform@ == platform_of(os@),
            r.devices@[0].device_name@ == platform_of(os@) + " Device"@,
            r.devices@[0].last_seen == now,
            r.devices@[0].sync_count == 0,
    {
        let device = DeviceInfo {
            device_id: self.device_id.clone(),
            platform: Self::get_platform(os),
            device_name: Self::get_device_name(os),
            last_seen: now,
            sync_count: 0,
        };
        let mut devices: Vec<DeviceInfo> = Vec::new();
        devices.push(device);
        CloudMetadata {
            format_version: String::from_str("1.0"),
            kdf_nonce: base64_encode(self.kdf_nonce.as_slice()),
            created_at: now,
            updated_at: Some(now),
            metadata_version: 1,
            devices,
        }
    }

    /// The metadata to upload when the cloud store has none; nothing where
    /// `metadata_exists`.
    pub fn initialize_metadata(&self, metadata_exists: bool, os: &str, now: i64) -> (r: Option<CloudMetadata>)
        ensures
            metadata_exists <==> r is None,
            r matches Some(m) ==> {
                &&& m.format_version@ == "1.0"@
                &&& m.kdf_nonce@ == base64_standard(self.kdf_nonce@)
                &&& m.created_at == now && m.updated_at == Some(now) && m.metadata_version == 1
                &&& m.devices@.len() == 1 && m.devices@[0].device_id@ == self.device_id@
                &&& m.devices@[0].platform@ == platform_of(os@)
                &&& m.devices@[0].device_name@ == platform_of(os@) + " Device"@
                &&& m.devices@[0].last_seen == now && m.devices@[0].sync_count == 0
            },
    {
        if metadata_exists {
            None
        } else {
            Some(self.initial_metadata(os, now))
        }
    }

    /// Sends local records to the cloud; records are not sent yet, so nothing moves.
    pub fn upload(&self) -> (r: SyncStats)
        ensures
            r == no_stats(),
    {
        SyncStats { uploaded: 0, downloaded: 0, conflicts: 0 }
    }

    /// Fetches records from the cloud; records are not fetched yet, so nothing moves.
    pub fn download(&self) -> (r: SyncStats)
        ensures
            r == no_stats(),
    {
        SyncStats { uploaded: 0, downloaded: 0, conflicts: 0 }
    }

    /// Synchronizes in a direction; both directions add up the statistics of
    /// an upload and a download.
    pub fn sync(&self, direction: SyncDirection) -> (r: SyncStats)
        ensures
            r == no_stats(),
    {
        match direction {
            SyncDirection::Upload => self.upload(),
            SyncDirection::Download => self.download(),
            SyncDirection::Both => {
                let up = self.upload();
                let down = self.download();
                SyncStats {
                    uploaded: up.uploaded + down.uploaded,
                    downloaded: up.downloaded + down.downloaded,
                    conflicts: up.conflicts + down.conflicts,
                }
            },
        }
    }
}

} // verus!
