//! The device configuration, as it is stored in EEPROM.
//!
//! ```text
//! offset  size  field
//! 0x00    1     version (1)
//! 0x01    3     magic bytes 0x23 0x42 0x99
//! 0x04    4     LoRaWAN device address
//! 0x08    16    LoRaWAN ABP network session key
//! 0x18    16    LoRaWAN ABP app session key
//! 0x28    2     wake-up interval in seconds (u16, little endian)
//! 0x2A    1     every n-th wake-up measures temperature and humidity
//! 0x2B    1     every n-th wake-up measures the supply voltage
//! ```
use vstd::prelude::*;

verus! {

/// Address of the configuration in EEPROM.
pub const BASE_ADDR: usize = 0x0808_0000;

/// Size of the stored configuration, in bytes.
pub const CONFIG_DATA_SIZE: usize = 44;

/// The first magic byte after the version.
pub const MAGIC_0: u8 = 0x23;

/// The second magic byte after the version.
pub const MAGIC_1: u8 = 0x42;

/// The third magic byte after the version.
pub const MAGIC_2: u8 = 0x99;

/// Layout version of the stored configuration.
#[derive(Clone, Copy, Debug, PartialEq, Eq, Structural)]
pub enum ConfigVersion {
    V1,
}

impl ConfigVersion {
    /// The version byte as stored.
    pub open spec fn spec_number(self) -> u8 {
        match self {
            ConfigVersion::V1 => 1u8,
        }
    }

    /// The version whose stored byte is `number`, if it is supported.
    pub fn from_number(number: u8) -> (r: Option<ConfigVersion>)
        ensures
            r matches Some(v) ==> v.spec_number() == number,
            r is None <==> number != 1u8,
    {
        match number {
            1 => Some(ConfigVersion::V1),
            _ => None,
        }
    }

    /// The version byte as stored.
    pub fn number(&self) -> (r: u8)
        ensures
            r == self.spec_number(),
    {
        match self {
            ConfigVersion::V1 => 1u8,
        }
    }
}

/// Why stored bytes are not a configuration.
#[derive(Clone, Copy, Debug, PartialEq, Eq, Structural)]
pub enum ConfigError {
    /// The slice is shorter than `CONFIG_DATA_SIZE`.
    WrongSliceLength,
    /// The version byte is not supported.
    UnsupportedVersion(u8),
    /// Wrong magic bytes: the configuration data might be corrupted.
    WrongMagicBytes,
}

/// The device configuration.
#[derive(Clone, Copy, Debug, PartialEq, Eq)]
pub struct Config {
    /// Configuration layout version.
    pub version: ConfigVersion,
    /// LoRaWAN device address.
    pub devaddr: [u8; 4],
    /// LoRaWAN ABP network session key.
    pub nwkskey: [u8; 16],
    /// LoRaWAN ABP app session key.
    pub appskey: [u8; 16],
    /// How often (in seconds) the device wakes up to measure.
    pub wakeup_interval_seconds: u16,
    /// Every n-th wake-up measures and sends temperature and humidity.
    pub nth_temp_humi: u8,
    /// Every n-th wake-up measures and sends the supply voltage.
    pub nth_voltage: u8,
}

/// Low byte of `v`.
pub open spec fn le_low(v: u16) -> u8 {
    (v % 256) as u8
}

/// High byte of `v`.
pub open spec fn le_high(v: u16) -> u8 {
    (v / 256) as u8
}

impl Config {
    /// The stored bytes of this configuration.
    pub open spec fn layout(self) -> Seq<u8> {
        seq![self.version.spec_number(), MAGIC_0, MAGIC_1, MAGIC_2] + self.devaddr@
            + self.nwkskey@ + self.appskey@ + seq![
            le_low(self.wakeup_interval_seconds),
            le_high(self.wakeup_interval_seconds),
            self.nth_temp_humi,
            self.nth_voltage,
        ]
    }
}

/// Copies `N` bytes of `slice` from `start` on.
fn copy_bytes<const N: usize>(slice: &[u8], start: usize) -> (r: [u8; N])
    requires
        start + N <= slice@.len(),
    ensures
        r@ == slice@.subrange(start as int, start + N),
{
    let mut r = [0u8; N];
    let len = slice.len();
    let mut i: usize = 0;
    while i < N
        invariant
            i <= N,
            start + N <= slice@.len(),
            len == slice@.len(),
            r@.len() == N,
            forall|k: int| 0 <= k < i ==> r@[k] == slice@[start + k],
        decreases N - i,
    {
        r[i] = slice[start + i];
        i = i + 1;
    }
    assert(r@ =~= slice@.subrange(start as int, start + N));
    r
}

/// Copies `src` into `data` from `start` on.
fn put_bytes<const N: usize>(data: &mut [u8; CONFIG_DATA_SIZE], start: usize, src: &[u8; N])
    requires
        start + N <= CONFIG_DATA_SIZE,
    ensures
        final(data)@ == old(data)@.subrange(0, start as int) + src@ + old(data)@.subrange(
            start + N,
            CONFIG_DATA_SIZE as int,
        ),
{
    let ghost before = data@;
    let mut i: usize = 0;
    while i < N
        invariant
            i <= N,
            start + N <= CONFIG_DATA_SIZE,
            data@.len() == CONFIG_DATA_SIZE,
            forall|k: int| 0 <= k < i ==> data@[start + k] == src@[k],
            forall|k: int|
                0 <= k < CONFIG_DATA_SIZE && !(start <= k < start + i) ==> data@[k] == before[k],
        decreases N - i,
    {
        data[start + i] = src[i];
        i = i + 1;
    }
    assert(data@ =~= before.subrange(0, start as int) + src@ + before.subrange(
        start + N,
        CONFIG_DATA_SIZE as int,
    ));
}

impl Config {
    /// Reads a configuration from the first `CONFIG_DATA_SIZE` bytes of `slice`.
    ///
    /// Fails with `WrongSliceLength` when the slice is too short, with
    /// `UnsupportedVersion` when the version byte is not 1, and with
    /// `WrongMagicBytes` when bytes 1 to 3 are not the magic bytes, in that
    /// order of checks.
    pub fn from_slice(slice: &[u8]) -> (r: Result<Config, ConfigError>)
        ensures
            (r == Err::<Config, ConfigError>(ConfigError::WrongSliceLength)) <==> slice@.len()
                < CONFIG_DATA_SIZE,
            (r is Err && r->Err_0 is UnsupportedVersion) <==> (slice@.len() >= CONFIG_DATA_SIZE
                && slice@[0] != 1u8),
            r matches Err(ConfigError::UnsupportedVersion(v)) ==> v == slice@[0],
            (r == Err::<Config, ConfigError>(ConfigError::WrongMagicBytes)) <==> (slice@.len()
                >= CONFIG_DATA_SIZE && slice@[0] == 1u8 && !(slice@[1] == MAGIC_0 && slice@[2]
                == MAGIC_1 && slice@[3] == MAGIC_2)),
            r matches Ok(c) ==> c.layout() == slice@.subrange(0, CONFIG_DATA_SIZE as int),
    {
        if slice.len() < CONFIG_DATA_SIZE {
            return Err(ConfigError::WrongSliceLength);
        }
        let version = match slice[0] {
            1 => ConfigVersion::V1,
            other => {
                return Err(ConfigError::UnsupportedVersion(other));
            },
        };
        if !(slice[1] == MAGIC_0 && slice[2] == MAGIC_1 && slice[3] == MAGIC_2) {
            return Err(ConfigError::WrongMagicBytes);
        }
        let devaddr: [u8; 4] = copy_bytes(slice, 0x04);
        let nwkskey: [u8; 16] = copy_bytes(slice, 0x08);
        let appskey: [u8; 16] = copy_bytes(slice, 0x18);
        let wakeup_interval_seconds: u16 = slice[0x28] as u16 + (slice[0x29] as u16) * 256;
        let nth_temp_humi = slice[0x2A];
        let nth_voltage = slice[0x2B];
        let c = Config {
            version,
            devaddr,
            nwkskey,
            appskey,
            wakeup_interval_seconds,
            nth_temp_humi,
            nth_voltage,
        };
        assert(c.layout() =~= slice@.subrange(0, CONFIG_DATA_SIZE as int));
        Ok(c)
    }

    /// The stored bytes of this configuration; the version byte is always 1.
    pub fn serialize(&self) -> (r: [u8; CONFIG_DATA_SIZE])
        ensures
            r@ == self.layout(),
    {
        let mut data = [0u8; CONFIG_DATA_SIZE];
        data[0] = self.version.number();
        data[1] = MAGIC_0;
        data[2] = MAGIC_1;
        data[3] = MAGIC_2;
        put_bytes(&mut data, 0x04, &self.devaddr);
        put_bytes(&mut data, 0x08, &self.nwkskey);
        put_bytes(&mut data, 0x18, &self.appskey);
        data[0x28] = (self.wakeup_interval_seconds % 256) as u8;
        data[0x29] = (self.wakeup_interval_seconds / 256) as u8;
        data[0x2A] = self.nth_temp_humi;
        data[0x2B] = self.nth_voltage;
        assert(data@ =~= self.layout());
        data
    }
}

/// Reading back the stored bytes of a configuration gives that configuration:
/// the bytes pass every check of `from_slice`, and the only configuration with
/// those bytes is `c`.
pub proof fn lemma_config_round_trip(c: Config, d: Config)
    requires
        d.layout() == c.layout().subrange(0, CONFIG_DATA_SIZE as int),
    ensures
        c.layout().len() == CONFIG_DATA_SIZE,
        c.layout()[0] == 1u8,
        c.layout()[1] == MAGIC_0 && c.layout()[2] == MAGIC_1 && c.layout()[3] == MAGIC_2,
        c.layout().subrange(0, CONFIG_DATA_SIZE as int) == c.layout(),
        d == c,
{
    let l = c.layout();
    assert(l.subrange(0, CONFIG_DATA_SIZE as int) =~= l);
    assert(d.layout() == l);
    assert(d.version == c.version) by {
        assert(d.layout()[0] == l[0]);
    }
    assert(d.devaddr@ =~= c.devaddr@) by {
        assert forall|i: int| 0 <= i < 4 implies d.devaddr@[i] == c.devaddr@[i] by {
            assert(d.layout()[4 + i] == l[4 + i]);
        }
    }
    assert(d.nwkskey@ =~= c.nwkskey@) by {
        assert forall|i: int| 0 <= i < 16 implies d.nwkskey@[i] == c.nwkskey@[i] by {
            assert(d.layout()[8 + i] == l[8 + i]);
        }
    }
    assert(d.appskey@ =~= c.appskey@) by {
        assert forall|i: int| 0 <= i < 16 implies d.appskey@[i] == c.appskey@[i] by {
            assert(d.layout()[24 + i] == l[24 + i]);
        }
    }
    assert(d.devaddr =~= c.devaddr);
    assert(d.nwkskey =~= c.nwkskey);
    assert(d.appskey =~= c.appskey);
    assert(d.layout()[40] == l[40] && d.layout()[41] == l[41]);
    assert(d.wakeup_interval_seconds == c.wakeup_interval_seconds);
    assert(d.layout()[42] == l[42] && d.layout()[43] == l[43]);
}

} // verus!
