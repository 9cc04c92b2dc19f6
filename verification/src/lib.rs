//! Storage model of the Stellar Wrap soulbound-token registry: the records kept
//! per `(user, period)`, the keys under which they are stored, the registry's
//! constants, and the human-readable rendering of a wrap record.

pub mod constants;
pub mod storage_types;
pub mod text;

pub use constants::{
    Sha256Hash, DEFAULT_COUNTER_VALUE, DEFAULT_TTL_LEDGERS, HASH_BYTES, HASH_PREVIEW_BYTES,
    LEDGERS_PER_DAY, TTL_DAYS, USER_COUNT_INCREMENT,
};
pub use storage_types::{
    ContractInfo, ContractStats, DataKey, WrapComparison, WrapPeriod, WrapRecord, WrapRecordOption,
    WrapRecordV1, WrapRecordV2, SCHEMA_VERSION, SCHEMA_VERSION_V2, SCHEMA_VERSION_V3,
    SYMBOL_MAX_CHARS, is_valid_symbol,
};
