//! The values the registry stores. Addresses are held in their strkey form
//! (`G...` for accounts, `C...` for contracts), symbols by their characters,
//! and hashes as their 32 raw bytes. Symbol text is checked by `is_valid_symbol`;
//! strkeys are not checked here, since their validity includes a checksum that
//! only the Stellar strkey encoding defines, and Soroban refuses invalid ones when
//! it turns them into addresses.
use vstd::prelude::*;

use crate::constants::{Sha256Hash, HASH_PREVIEW_BYTES};
use crate::text::{
    is_hex_of, is_numeral_of, lemma_decimal_is_numeral, lemma_hex_bytes_reads_back, decimal, hex_bytes, lemma_cancel_prefix, lemma_decimal_digits, lemma_decimal_injective,
    lemma_hex_bytes_injective, lemma_hex_bytes_len, lemma_split_after_digits, push_decimal,
    push_hex_byte,
};

verus! {

/// The most characters a Soroban symbol may hold.
pub const SYMBOL_MAX_CHARS: usize = 32;

/// The characters a Soroban symbol may hold: `_`, `0`-`9`, `A`-`Z` and `a`-`z`.
pub open spec fn is_symbol_char(c: char) -> bool {
    c == '_' || ('0' <= c <= '9') || ('A' <= c <= 'Z') || ('a' <= c <= 'z')
}

/// Text that a Soroban symbol can hold: at most `SYMBOL_MAX_CHARS` symbol characters.
/// An archetype is stored as a symbol, so every record's archetype must be such text.
pub open spec fn is_symbol_text(s: Seq<char>) -> bool {
    &&& s.len() <= SYMBOL_MAX_CHARS
    &&& forall|i: int| 0 <= i < s.len() ==> is_symbol_char(#[trigger] s[i])
}

/// Whether `s` can be stored as a Soroban symbol (such as a record's archetype).
pub fn is_valid_symbol(s: &str) -> (r: bool)
    ensures
        r == is_symbol_text(s@),
{
    let n = s.unicode_len();
    if n > SYMBOL_MAX_CHARS {
        return false;
    }
    let mut i: usize = 0;
    while i < n
        invariant
            n == s@.len(),
            i <= n,
            forall|j: int| 0 <= j < i ==> is_symbol_char(#[trigger] s@[j]),
        decreases n - i,
    {
        let c = s.get_char(i);
        if !(c == '_' || ('0' <= c && c <= '9') || ('A' <= c && c <= 'Z') || ('a' <= c && c
            <= 'z')) {
            return false;
        }
        i = i + 1;
    }
    true
}

/// Symbol text, spelled out by code point: at most 32 characters, each `_` (95),
/// a digit `0`-`9` (48-57), an upper-case letter `A`-`Z` (65-90) or a lower-case
/// letter `a`-`z` (97-122). `is_valid_symbol` answers exactly this.
pub proof fn lemma_symbol_text_by_code_point(s: Seq<char>)
    ensures
        is_symbol_text(s) <==> {
            &&& s.len() <= 32
            &&& forall|i: int|
                0 <= i < s.len() ==> {
                    let c = #[trigger] s[i] as int;
                    c == 95 || (48 <= c <= 57) || (65 <= c <= 90) || (97 <= c <= 122)
                }
        },
{
    assert('_' as int == 95 && '0' as int == 48 && '9' as int == 57 && 'A' as int == 65 && 'Z' as int
        == 90 && 'a' as int == 97 && 'z' as int == 122);
}

/// Registry-wide statistics.
#[derive(Clone, Debug, Eq, PartialEq)]
pub struct ContractStats {
    pub total_mints: u64,
    pub admin: Option<String>,
    pub is_initialized: bool,
    pub last_mint_timestamp: Option<u64>,
    pub schema_version: u32,
}

/// Descriptive metadata of the registry contract.
#[derive(Clone, Debug, Eq, PartialEq)]
pub struct ContractInfo {
    pub name: String,
    pub version: String,
    pub repo: String,
    pub description: String,
}

/// Schema v1 wrap record (no `image_uri`). Retained for lazy migration reads.
#[derive(Clone, Debug, Eq, PartialEq)]
pub struct WrapRecordV1 {
    pub timestamp: u64,
    pub data_hash: Sha256Hash,
    pub archetype: String,
    pub period: u64,
}

impl WrapRecordV1 {
    /// The archetype is text that a Soroban symbol can hold.
    pub open spec fn well_formed(&self) -> bool {
        is_symbol_text(self.archetype@)
    }

    /// A v1 record with these fields, or `None` when the archetype is not text that
    /// a Soroban symbol can hold.
    pub fn new(timestamp: u64, data_hash: Sha256Hash, archetype: String, period: u64) -> (r:
        Option<WrapRecordV1>)
        ensures
            r is Some <==> is_symbol_text(archetype@),
            r matches Some(w) ==> {
                &&& w.well_formed()
                &&& w == (WrapRecordV1 { timestamp, data_hash, archetype, period })
            },
    {
        if is_valid_symbol(archetype.as_str()) {
            Some(WrapRecordV1 { timestamp, data_hash, archetype, period })
        } else {
            None
        }
    }
}

/// Period encoded as YYYYMM (e.g., 202512 = December 2025)
pub type WrapPeriod = u64;

/// Schema v2 wrap record (adds `image_uri`).
#[derive(Clone, Debug, Eq, PartialEq)]
pub struct WrapRecordV2 {
    pub timestamp: u64,
    pub data_hash: Sha256Hash,
    pub archetype: String,
    pub period: u64,
    pub image_uri: String,
}

impl WrapRecordV2 {
    /// The archetype is text that a Soroban symbol can hold.
    pub open spec fn well_formed(&self) -> bool {
        is_symbol_text(self.archetype@)
    }

    /// A v2 record with these fields, or `None` when the archetype is not text that
    /// a Soroban symbol can hold.
    pub fn new(
        timestamp: u64,
        data_hash: Sha256Hash,
        archetype: String,
        period: u64,
        image_uri: String,
    ) -> (r: Option<WrapRecordV2>)
        ensures
            r is Some <==> is_symbol_text(archetype@),
            r matches Some(w) ==> {
                &&& w.well_formed()
                &&& w == (WrapRecordV2 { timestamp, data_hash, archetype, period, image_uri })
            },
    {
        if is_valid_symbol(archetype.as_str()) {
            Some(WrapRecordV2 { timestamp, data_hash, archetype, period, image_uri })
        } else {
            None
        }
    }
}

/// The current wrap record: what a user's soulbound token holds for one period.
#[derive(Clone, Debug, Eq, PartialEq)]
pub struct WrapRecord {
    pub timestamp: u64,
    pub data_hash: Sha256Hash,
    pub archetype: String,
    pub period: WrapPeriod,
    pub image_uri: String,
    /// Optional on-chain metadata/notes (schema v3+)
    pub metadata: Option<String>,
}

/// The bytes of the data hash that the rendering of a record shows.
pub open spec fn hash_preview(data_hash: Sha256Hash) -> Seq<u8> {
    data_hash@.take(HASH_PREVIEW_BYTES as int)
}

impl WrapRecord {
    /// The archetype is text that a Soroban symbol can hold.
    pub open spec fn well_formed(&self) -> bool {
        is_symbol_text(self.archetype@)
    }

    /// A record with these fields, or `None` when the archetype is not text that a
    /// Soroban symbol can hold.
    pub fn new(
        timestamp: u64,
        data_hash: Sha256Hash,
        archetype: String,
        period: WrapPeriod,
        image_uri: String,
        metadata: Option<String>,
    ) -> (r: Option<WrapRecord>)
        ensures
            r is Some <==> is_symbol_text(archetype@),
            r matches Some(w) ==> {
                &&& w.well_formed()
                &&& w == (WrapRecord { timestamp, data_hash, archetype, period, image_uri, metadata })
            },
    {
        if is_valid_symbol(archetype.as_str()) {
            Some(WrapRecord { timestamp, data_hash, archetype, period, image_uri, metadata })
        } else {
            None
        }
    }

    /// The rendering of a record: its period, archetype and timestamp, the first
    /// `HASH_PREVIEW_BYTES` bytes of its data hash in lower-case hexadecimal followed
    /// by `...`, and its image URI. The archetype is shown as `Symbol(<chars>)` and the
    /// image URI as `String(<chars>)`, which is how Soroban's symbols and strings print
    /// themselves off wasm; built for wasm, Soroban prints them as the bare
    /// `Symbol(..)` and `String(..)`, without their contents.
    pub open spec fn rendered(&self) -> Seq<char> {
        "WrapRecord { period: "@ + (decimal(self.period as nat) + self.rendered_after_period())
    }

    /// The rendering from the archetype on.
    pub open spec fn rendered_after_period(&self) -> Seq<char> {
        ", archetype: Symbol("@ + (self.archetype@ + ("), timestamp: "@ + (decimal(
            self.timestamp as nat,
        ) + self.rendered_after_timestamp())))
    }

    /// The rendering from the data hash on.
    pub open spec fn rendered_after_timestamp(&self) -> Seq<char> {
        ", data_hash: "@ + (hex_bytes(hash_preview(self.data_hash)) + ("..., image_uri: String("@
            + (self.image_uri@ + ") }"@)))
    }

    /// Renders the record for display, e.g.
    /// `WrapRecord { period: 202512, archetype: Symbol(builder), timestamp: 1700000000, data_hash: 0a1b2c3d..., image_uri: String(ipfs://x) }`.
    pub fn to_display_string(&self) -> (s: String)
        ensures
            s@ == self.rendered(),
    {
        let mut out = String::new();
        out.append("WrapRecord { period: ");
        push_decimal(&mut out, self.period);
        out.append(", archetype: Symbol(");
        out.append(self.archetype.as_str());
        out.append("), timestamp: ");
        push_decimal(&mut out, self.timestamp);
        out.append(", data_hash: ");
        let ghost before_hash = out@;
        let mut i: usize = 0;
        while i < HASH_PREVIEW_BYTES
            invariant
                i <= HASH_PREVIEW_BYTES,
                out@ == before_hash + hex_bytes(self.data_hash@.take(i as int)),
            decreases HASH_PREVIEW_BYTES - i,
        {
            let byte = self.data_hash[i];
            push_hex_byte(&mut out, byte);
            assert(self.data_hash@.take(i + 1).drop_last() =~= self.data_hash@.take(i as int));
            i = i + 1;
        }
        out.append("..., image_uri: String(");
        out.append(self.image_uri.as_str());
        out.append(") }");
        assert(out@ =~= self.rendered());
        out
    }
}

/// The rendering of a record shows neither its metadata nor the data-hash bytes
/// past the preview: records that agree on everything else render identically.
pub proof fn lemma_rendering_ignores_hidden_fields(a: WrapRecord, b: WrapRecord)
    requires
        a.period == b.period,
        a.archetype@ == b.archetype@,
        a.timestamp == b.timestamp,
        a.image_uri@ == b.image_uri@,
        hash_preview(a.data_hash) == hash_preview(b.data_hash),
    ensures
        a.rendered() == b.rendered(),
{
}

/// The rendering is laid out as `WrapRecord { period: P, archetype: Symbol(A),
/// timestamp: T, data_hash: H..., image_uri: String(U) }`, where `P` and `T` are the
/// base-10 numerals of the period and the timestamp, `A` is the whole archetype,
/// `H` writes the first `HASH_PREVIEW_BYTES` bytes of the data hash, in order, as
/// two-digit lower-case base-16 numerals, and `U` is the whole image URI. The
/// returned parts are `P`, `T` and `H`.
pub proof fn lemma_rendered_layout(r: WrapRecord) -> (parts: (Seq<char>, Seq<char>, Seq<char>))
    ensures
        r.rendered() == "WrapRecord { period: "@ + parts.0 + ", archetype: Symbol("@ + r.archetype@
            + "), timestamp: "@ + parts.1 + ", data_hash: "@ + parts.2 + "..., image_uri: String("@
            + r.image_uri@ + ") }"@,
        is_numeral_of(parts.0, r.period as int),
        is_numeral_of(parts.1, r.timestamp as int),
        is_hex_of(parts.2, r.data_hash@.take(HASH_PREVIEW_BYTES as int)),
{
    let p = decimal(r.period as nat);
    let t = decimal(r.timestamp as nat);
    let h = hex_bytes(hash_preview(r.data_hash));
    lemma_decimal_is_numeral(r.period as nat);
    lemma_decimal_is_numeral(r.timestamp as nat);
    lemma_hex_bytes_reads_back(hash_preview(r.data_hash));
    assert(r.rendered() =~= "WrapRecord { period: "@ + p + ", archetype: Symbol("@ + r.archetype@
        + "), timestamp: "@ + t + ", data_hash: "@ + h + "..., image_uri: String("@ + r.image_uri@
        + ") }"@);
    (p, t, h)
}

/// The rendering shows the whole archetype: records that differ only in their
/// archetype render differently.
pub proof fn lemma_rendering_tells_archetypes_apart(a: WrapRecord, b: WrapRecord)
    requires
        a.period == b.period,
        a.timestamp == b.timestamp,
        a.data_hash == b.data_hash,
        a.image_uri@ == b.image_uri@,
        a.archetype@ != b.archetype@,
    ensures
        a.rendered() != b.rendered(),
{
    if a.rendered() == b.rendered() {
        let prefix = "WrapRecord { period: "@ + decimal(a.period as nat) + ", archetype: Symbol("@;
        let rest = "), timestamp: "@ + (decimal(a.timestamp as nat) + a.rendered_after_timestamp());
        assert(b.rendered_after_timestamp() == a.rendered_after_timestamp());
        assert(a.rendered() =~= prefix + (a.archetype@ + rest));
        assert(b.rendered() =~= prefix + (b.archetype@ + rest));
        lemma_cancel_prefix(prefix, a.archetype@ + rest, b.archetype@ + rest);
        assert(a.archetype@ =~= (a.archetype@ + rest).take(a.archetype@.len() as int));
        assert(b.archetype@ =~= (b.archetype@ + rest).take(b.archetype@.len() as int));
    }
}

/// The rendering tells records apart by period, timestamp and hash preview:
/// records with the same archetype and image URI that differ in any of those
/// render differently.
pub proof fn lemma_rendering_shows_period_timestamp_and_preview(a: WrapRecord, b: WrapRecord)
    requires
        a.archetype@ == b.archetype@,
        a.image_uri@ == b.image_uri@,
        a.period != b.period || a.timestamp != b.timestamp || hash_preview(a.data_hash)
            != hash_preview(b.data_hash),
    ensures
        a.rendered() != b.rendered(),
{
    if a.rendered() == b.rendered() {
        lemma_rendered_parts(a, b);
    }
}

/// Equal renderings of records with the same archetype and image URI come from
/// the same period, timestamp and hash preview.
proof fn lemma_rendered_parts(a: WrapRecord, b: WrapRecord)
    requires
        a.archetype@ == b.archetype@,
        a.image_uri@ == b.image_uri@,
        a.rendered() == b.rendered(),
    ensures
        a.period == b.period,
        a.timestamp == b.timestamp,
        hash_preview(a.data_hash) == hash_preview(b.data_hash),
{
    reveal_strlit(", archetype: Symbol(");
    reveal_strlit(", data_hash: ");
    let wa = a.rendered_after_period();
    let wb = b.rendered_after_period();
    lemma_cancel_prefix(
        "WrapRecord { period: "@,
        decimal(a.period as nat) + wa,
        decimal(b.period as nat) + wb,
    );
    lemma_decimal_digits(a.period as nat);
    lemma_decimal_digits(b.period as nat);
    assert(wa[0] == ',');
    assert(wb[0] == ',');
    lemma_split_after_digits(decimal(a.period as nat), wa, decimal(b.period as nat), wb);
    lemma_decimal_injective(a.period as nat, b.period as nat);
    lemma_rendered_after_period_parts(a, b);
}

/// Equal renderings from the archetype on, of records with the same archetype and
/// image URI, come from the same timestamp and hash preview.
proof fn lemma_rendered_after_period_parts(a: WrapRecord, b: WrapRecord)
    requires
        a.archetype@ == b.archetype@,
        a.image_uri@ == b.image_uri@,
        a.rendered_after_period() == b.rendered_after_period(),
    ensures
        a.timestamp == b.timestamp,
        hash_preview(a.data_hash) == hash_preview(b.data_hash),
{
    reveal_strlit(", data_hash: ");
    let ua = a.rendered_after_timestamp();
    let ub = b.rendered_after_timestamp();
    let ta = decimal(a.timestamp as nat);
    let tb = decimal(b.timestamp as nat);
    let prefix = ", archetype: Symbol("@ + a.archetype@ + "), timestamp: "@;
    assert(a.rendered_after_period() =~= prefix + (ta + ua));
    assert(b.rendered_after_period() =~= prefix + (tb + ub));
    lemma_cancel_prefix(prefix, ta + ua, tb + ub);
    lemma_decimal_digits(a.timestamp as nat);
    lemma_decimal_digits(b.timestamp as nat);
    assert(ua[0] == ',');
    assert(ub[0] == ',');
    lemma_split_after_digits(ta, ua, tb, ub);
    lemma_decimal_injective(a.timestamp as nat, b.timestamp as nat);
    let ha = hex_bytes(hash_preview(a.data_hash));
    let hb = hex_bytes(hash_preview(b.data_hash));
    let va = ha + ("..., image_uri: String("@ + (a.image_uri@ + ") }"@));
    let vb = hb + ("..., image_uri: String("@ + (b.image_uri@ + ") }"@));
    lemma_cancel_prefix(", data_hash: "@, va, vb);
    lemma_hex_bytes_len(hash_preview(a.data_hash));
    lemma_hex_bytes_len(hash_preview(b.data_hash));
    assert(ha =~= va.take(ha.len() as int));
    assert(hb =~= vb.take(hb.len() as int));
    lemma_hex_bytes_injective(hash_preview(a.data_hash), hash_preview(b.data_hash));
}

/// A wrap record that may be absent, in a form the contract's storage accepts.
#[derive(Clone, Debug, Eq, PartialEq)]
pub enum WrapRecordOption {
    /// A record is present (`Some` in the contract's own encoding).
    Present(WrapRecord),
    /// No record (`None` in the contract's own encoding).
    Absent,
}

impl WrapRecordOption {
    pub fn is_some(&self) -> (r: bool)
        ensures
            r == (self is Present),
    {
        match self {
            WrapRecordOption::Present(_) => true,
            WrapRecordOption::Absent => false,
        }
    }

    pub fn is_none(&self) -> (r: bool)
        ensures
            r == (self is Absent),
    {
        match self {
            WrapRecordOption::Present(_) => false,
            WrapRecordOption::Absent => true,
        }
    }
}

/// Exactly one of `is_some` and `is_none` holds of any value.
pub proof fn lemma_some_xor_none(o: WrapRecordOption)
    ensures
        (o is Present) != (o is Absent),
{
}

/// Two users' wraps for one period side by side.
#[derive(Clone, Debug, Eq, PartialEq)]
pub struct WrapComparison {
    pub user_a_wrap: WrapRecordOption,
    pub user_b_wrap: WrapRecordOption,
    pub both_have_wrap: bool,
    pub same_archetype: bool,
    pub period: u64,
}

/// The keys under which the registry stores its values.
#[derive(Clone, Debug, Eq, PartialEq)]
pub enum DataKey {
    /// Stores the Address of the admin
    Admin,
    /// Stores the BytesN<32> public key for Ed25519 verification
    AdminPubKey,
    /// Current storage schema version (instance storage); set at initialization and
    /// bumped on breaking storage migrations
    SchemaVersion,
    /// Stores individual WrapRecords (mapped by User and Period)
    /// Using u64 for period ensures consistent indexing
    Wrap(String, u64),
    /// Stores the total number of wraps for a specific user (for balance_of)
    WrapCount(String),
    /// Tracks the latest (highest) period minted for a user
    LatestPeriod(String),
    /// Temporary, invocation-scoped reentrancy guard for mint flow
    MintGuard(String),
    /// Global counter of currently active (non-revoked) minted wraps
    TotalMints,
    /// Ledger timestamp of the most recent successful mint
    LastMintTimestamp,
    /// Merkle root for batch claims per period
    MerkleRoot(u64),
    /// Tracks whether a user has claimed via merkle for a period
    MerkleClaimed(String, u64),
    /// User privacy opt-out flag (persistent)
    UserOptOut(String),
}

/// Current schema version written by `initialize()` and advanced by `migrate()`.
pub const SCHEMA_VERSION: u32 = 1;

/// Target schema version after v1 → v2 migration (`image_uri` field).
pub const SCHEMA_VERSION_V2: u32 = 2;

/// Target schema version after v2 → v3 migration (`metadata` field).
pub const SCHEMA_VERSION_V3: u32 = 3;

/// Each migration advances the schema version by exactly one.
pub proof fn lemma_schema_versions_advance()
    ensures
        SCHEMA_VERSION_V2 == SCHEMA_VERSION + 1,
        SCHEMA_VERSION_V3 == SCHEMA_VERSION_V2 + 1,
{
}

} // verus!
