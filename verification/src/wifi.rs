//! The saved network: its credentials, and the hint that speeds up joining.
use vstd::prelude::*;

verus! {

/// The longest network name, in bytes.
pub const SSID_BYTES: u8 = 32;

/// Credentials as they are stored: two fields and how much of each is used.
pub struct WifiCredentials {
    pub ssid: Vec<u8>,
    pub ssid_len: u8,
    pub password: Vec<u8>,
    pub password_len: u8,
}

pub open spec fn same_credentials(a: WifiCredentials, b: WifiCredentials) -> bool {
    a.ssid@ == b.ssid@ && a.ssid_len == b.ssid_len && a.password@ == b.password@ && a.password_len
        == b.password_len
}

fn same_bytes(a: &Vec<u8>, b: &Vec<u8>) -> (same: bool)
    ensures
        same == (a@ == b@),
{
    if a.len() != b.len() {
        return false;
    }
    let mut i: usize = 0;
    while i < a.len()
        invariant
            i <= a@.len(),
            a@.len() == b@.len(),
            forall|j: int| 0 <= j < i ==> a@[j] == b@[j],
        decreases a@.len() - i,
    {
        if a[i] != b[i] {
            return false;
        }
        i += 1;
    }
    assert(a@ =~= b@);
    true
}

impl WifiCredentials {
    /// Whether two records say the same.
    pub fn same_as(&self, other: &WifiCredentials) -> (same: bool)
        ensures
            same == same_credentials(*self, *other),
    {
        self.ssid_len == other.ssid_len && self.password_len == other.password_len && same_bytes(
            &self.ssid,
            &other.ssid,
        ) && same_bytes(&self.password, &other.password)
    }

    /// The network's name: the used part of its field.
    pub fn ssid(&self) -> (name: Vec<u8>)
        requires
            self.ssid@.len() == SSID_BYTES,
        ensures
            name@ == network_name(*self),
            name@ == self.ssid@.take(
                if self.ssid_len <= SSID_BYTES { self.ssid_len as int } else { SSID_BYTES as int },
            ),
    {
        let len: usize = if self.ssid_len <= SSID_BYTES {
            self.ssid_len as usize
        } else {
            SSID_BYTES as usize
        };
        let mut name: Vec<u8> = Vec::new();
        let mut i: usize = 0;
        while i < len
            invariant
                i <= len <= self.ssid@.len(),
                name@ == self.ssid@.take(i as int),
            decreases len - i,
        {
            name.push(self.ssid[i]);
            i += 1;
            assert(name@ =~= self.ssid@.take(i as int));
        }
        name
    }
}

/// Whether a store is confirmed: it was written, and the record read back on
/// the path a boot takes says what was sent.
pub fn credentials_confirmed(written: bool, sent: &WifiCredentials, read_back: &Option<WifiCredentials>) -> (confirmed: bool)
    ensures
        confirmed == are_confirmed(written, *sent, *read_back),
        confirmed == (written && match *read_back {
            Some(stored) => same_credentials(stored, *sent),
            None => false,
        }),
{
    written && match read_back {
        Some(stored) => stored.same_as(sent),
        None => false,
    }
}

/// Whether a hint steers the next join: only one for the network that is
/// saved. A mismatch is no error; it means a scan.
pub fn hint_applies(network_saved: bool, hint_matches: Option<bool>) -> (applies: bool)
    ensures
        applies == hint_counts(network_saved, hint_matches),
        applies == (network_saved && hint_matches == Some(true)),
{
    network_saved && match hint_matches {
        Some(matches) => matches,
        None => false,
    }
}

pub open spec fn network_name(credentials: WifiCredentials) -> Seq<u8> {
    credentials.ssid@.take(
        if credentials.ssid_len <= SSID_BYTES { credentials.ssid_len as int } else { SSID_BYTES as int },
    )
}

pub open spec fn are_confirmed(written: bool, sent: WifiCredentials, read_back: Option<WifiCredentials>) -> bool {
    written && match read_back {
        Some(stored) => same_credentials(stored, sent),
        None => false,
    }
}

pub open spec fn hint_counts(network_saved: bool, hint_matches: Option<bool>) -> bool {
    network_saved && hint_matches == Some(true)
}

/// A network's name is the start of its field, as long as it says, and never
/// longer than the field.
pub proof fn law_name_is_as_long_as_it_says(credentials: WifiCredentials)
    requires
        credentials.ssid@.len() == SSID_BYTES,
    ensures
        network_name(credentials).len() <= SSID_BYTES,
        credentials.ssid_len <= SSID_BYTES ==> network_name(credentials).len()
            == credentials.ssid_len,
        credentials.ssid_len > SSID_BYTES ==> network_name(credentials) == credentials.ssid@,
        forall|at: int|
            0 <= at < network_name(credentials).len() ==> network_name(credentials)[at]
                == #[trigger] credentials.ssid@[at],
{
}

/// Credentials are confirmed exactly if the write went and the card gives
/// back what was sent; a hint counts only for a saved network that it names.
pub proof fn law_only_what_reads_back_is_confirmed(written: bool, sent: WifiCredentials, read_back: Option<WifiCredentials>, network_saved: bool, hint_matches: Option<bool>)
    ensures
        are_confirmed(written, sent, read_back) ==> written && read_back is Some
            && same_credentials(read_back->0, sent),
        written && read_back is Some && same_credentials(read_back->0, sent) ==> are_confirmed(
            written,
            sent,
            read_back,
        ),
        hint_counts(network_saved, hint_matches) ==> network_saved && hint_matches == Some(true),
        hint_counts(true, Some(true)),
{
}

/// Credentials are the same only if both parts are, in their bytes and in how
/// much of them counts; and any are the same as themselves.
pub proof fn law_credentials_differ_in_any_part(a: WifiCredentials, b: WifiCredentials)
    ensures
        same_credentials(a, a),
        same_credentials(a, b) <==> same_credentials(b, a),
        a.ssid@ != b.ssid@ ==> !same_credentials(a, b),
        a.ssid_len != b.ssid_len ==> !same_credentials(a, b),
        a.password@ != b.password@ ==> !same_credentials(a, b),
        a.password_len != b.password_len ==> !same_credentials(a, b),
        same_credentials(a, b) ==> network_name(a) == network_name(b),
{
}

} // verus!
