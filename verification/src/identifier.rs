//! Card identifiers and the allowlist membership test.
//!
//! A reader response carries a raw byte string; only two lengths are
//! supported (a short and a long identifier form). Identifiers are compared
//! by exact byte equality, never by prefix.

use vstd::prelude::*;

verus! {

/// Byte length of the short identifier form.
pub const SHORT_ID_LEN: usize = 4;

/// Byte length of the long identifier form.
pub const LONG_ID_LEN: usize = 7;

/// A normalized card identifier, one of two fixed-length forms.
#[derive(Debug, Clone, PartialEq, Eq)]
pub enum CardIdentifier {
    Short { bytes: Vec<u8> },
    Long { bytes: Vec<u8> },
}

impl View for CardIdentifier {
    type V = Seq<u8>;

    open spec fn view(&self) -> Seq<u8> {
        match self {
            CardIdentifier::Short { bytes } => bytes@,
            CardIdentifier::Long { bytes } => bytes@,
        }
    }
}

impl CardIdentifier {
    /// Each form carries exactly its fixed number of bytes.
    pub open spec fn wf(self) -> bool {
        match self {
            CardIdentifier::Short { bytes } => bytes@.len() == SHORT_ID_LEN,
            CardIdentifier::Long { bytes } => bytes@.len() == LONG_ID_LEN,
        }
    }

    /// The identifier's bytes, for performing reader commands or display.
    pub fn bytes(&self) -> (r: &Vec<u8>)
        ensures
            r@ == self@,
    {
        match self {
            CardIdentifier::Short { bytes } => bytes,
            CardIdentifier::Long { bytes } => bytes,
        }
    }
}

/// A raw length the resolver accepts.
pub open spec fn supported_len(n: nat) -> bool {
    n == SHORT_ID_LEN || n == LONG_ID_LEN
}

/// Normalizes a raw reader response into an identifier; any length other
/// than the two supported forms is an unsupported format.
pub fn classify(raw: Vec<u8>) -> (r: Option<CardIdentifier>)
    ensures
        supported_len(raw@.len()) <==> r is Some,
        r matches Some(id) ==> id@ == raw@ && id.wf(),
        raw@.len() == SHORT_ID_LEN ==> (r matches Some(id) && id is Short),
        raw@.len() == LONG_ID_LEN ==> (r matches Some(id) && id is Long),
{
    if raw.len() == SHORT_ID_LEN {
        Some(CardIdentifier::Short { bytes: raw })
    } else if raw.len() == LONG_ID_LEN {
        Some(CardIdentifier::Long { bytes: raw })
    } else {
        None
    }
}

/// The set of identifiers authorized to trigger the actuation profile,
/// fixed at startup and never mutated at runtime.
#[derive(Debug, Clone, PartialEq, Eq)]
pub struct AllowList {
    pub entries: Vec<CardIdentifier>,
}

impl View for AllowList {
    type V = Seq<Seq<u8>>;

    open spec fn view(&self) -> Seq<Seq<u8>> {
        self.entries@.map_values(|c: CardIdentifier| c@)
    }
}

impl AllowList {
    pub open spec fn wf(self) -> bool {
        forall|i: int| 0 <= i < self.entries@.len() ==> self.entries@[i].wf()
    }

    pub fn new(entries: Vec<CardIdentifier>) -> (r: AllowList)
        ensures
            r.entries@ == entries@,
            r@ == entries@.map_values(|c: CardIdentifier| c@),
    {
        AllowList { entries }
    }
}

/// Exact-match membership: some entry is bit-equal to the identifier.
pub open spec fn authorized(allow: Seq<Seq<u8>>, id: Seq<u8>) -> bool {
    exists|i: int| 0 <= i < allow.len() && allow[i] == id
}

/// Byte-for-byte equality of two byte strings.
fn bytes_eq(a: &Vec<u8>, b: &Vec<u8>) -> (r: bool)
    ensures
        r <==> a@ == b@,
{
    if a.len() != b.len() {
        return false;
    }
    let mut i: usize = 0;
    while i < a.len()
        invariant
            a@.len() == b@.len(),
            i <= a@.len(),
            forall|j: int| 0 <= j < i ==> a@[j] == b@[j],
        decreases a@.len() - i,
    {
        if a[i] != b[i] {
            return false;
        }
        i = i + 1;
    }
    proof {
        assert(a@ =~= b@);
    }
    true
}

/// Exact-match membership test against the allowlist; true exactly when
/// some entry is bit-equal to the identifier.
pub fn is_authorized(id: &CardIdentifier, allow: &AllowList) -> (r: bool)
    ensures
        r == authorized(allow@, id@),
{
    let mut i: usize = 0;
    while i < allow.entries.len()
        invariant
            i <= allow.entries@.len(),
            allow@ == allow.entries@.map_values(|c: CardIdentifier| c@),
            forall|j: int| 0 <= j < i ==> allow@[j] != id@,
        decreases allow.entries@.len() - i,
    {
        if bytes_eq(allow.entries[i].bytes(), id.bytes()) {
            assert(allow@[i as int] == id@);
            return true;
        }
        i = i + 1;
    }
    false
}

} // verus!
