//! Storage-backend configuration: access modes, per-column tuning, and the
//! descriptor plan an open computes.
//!
//! Everything here is a decision over plain values: the engine options each
//! column gets, which columns run the retention filter, which get periodic
//! compaction, and how unknown on-disk columns are accommodated.  Unverified
//! glue materializes these plans into real engine option objects.

use crate::columns::{columns, ColumnKind};
use crate::hashing::bytes_eq;
use vstd::prelude::*;

verus! {

/// Subdirectory of the ledger directory holding the primary database.
pub const BLOCKSTORE_DIRECTORY_ROCKS_LEVEL: &'static str = "rocksdb";

/// Largest write buffer a column may use, in bytes.
pub const MAX_WRITE_BUFFER_SIZE: u64 = 256 * 1024 * 1024;

/// Data files older than this are picked up by periodic compaction: one day,
/// balancing timely reclamation against compaction traffic.
pub const PERIODIC_COMPACTION_SECONDS: u64 = 60 * 60 * 24;

/// How the store attaches to the database.
#[derive(Clone, Copy, Debug, PartialEq, Eq, Structural)]
pub enum AccessType {
    /// Full read-write access; all known columns must exist.
    Primary,
    /// Read-write with background compaction disabled, for offline tooling.
    PrimaryForMaintenance,
    /// Read-only, trailing a live primary's log.
    Secondary,
}

/// Write-ahead-log recovery policy, chosen by the caller.
#[derive(Clone, Copy, Debug, PartialEq, Eq, Structural)]
pub enum RecoveryMode {
    TolerateCorruptedTailRecords,
    AbsoluteConsistency,
    PointInTime,
    SkipAnyCorruptedRecord,
}

/// Column-value compression choice.
#[derive(Clone, Copy, Debug, PartialEq, Eq, Structural)]
pub enum CompressionType {
    NoCompression,
    Snappy,
    Lz4,
    Zstd,
}

/// Per-column options shared by the whole store.
#[derive(Clone, Copy, Debug, PartialEq, Eq, Structural)]
pub struct LedgerColumnOptions {
    /// Compression for the columns that opt in; off everywhere else.
    pub compression_type: CompressionType,
}

impl Default for LedgerColumnOptions {
    /// Compression off.
    fn default() -> (r: Self)
        ensures
            r.compression_type == CompressionType::NoCompression,
    {
        LedgerColumnOptions { compression_type: CompressionType::NoCompression }
    }
}

/// Relies on num_cpus::get: the number of logical CPUs, documented to be at
/// least one.
#[verifier::external_body]
fn cpu_count() -> (r: usize)
    ensures
        r >= 1,
{
    num_cpus::get()
}

/// The default thread count for the engine's low-priority (compaction)
/// pool: one per logical CPU.
pub fn default_num_compaction_threads() -> (r: usize)
    ensures
        r >= 1,
{
    cpu_count()
}

/// The default thread count for the engine's high-priority (flush) pool: a
/// quarter of the CPUs, at least one.
pub fn default_num_flush_threads() -> (r: usize)
    ensures
        r >= 1,
{
    let n: usize = cpu_count() / 4;
    if n == 0 {
        1
    } else {
        n
    }
}

/// How the store is opened.
#[derive(Debug)]
pub struct BlockstoreOptions {
    pub access_type: AccessType,
    pub recovery_mode: Option<RecoveryMode>,
    /// Whether opening insists on a raised file-descriptor limit.
    pub enforce_ulimit_nofile: bool,
    pub column_options: LedgerColumnOptions,
    pub num_rocksdb_compaction_threads: usize,
    pub num_rocksdb_flush_threads: usize,
}

impl Default for BlockstoreOptions {
    /// Primary access with default tuning.
    fn default() -> (r: Self)
        ensures
            r.access_type == AccessType::Primary,
            r.recovery_mode is None,
            r.enforce_ulimit_nofile,
            r.column_options.compression_type == CompressionType::NoCompression,
            r.num_rocksdb_compaction_threads >= 1,
            r.num_rocksdb_flush_threads >= 1,
    {
        BlockstoreOptions {
            access_type: AccessType::Primary,
            recovery_mode: None,
            enforce_ulimit_nofile: true,
            column_options: LedgerColumnOptions {
                compression_type: CompressionType::NoCompression,
            },
            num_rocksdb_compaction_threads: default_num_compaction_threads(),
            num_rocksdb_flush_threads: default_num_flush_threads(),
        }
    }
}

/// Whether automatic compactions are disabled for the whole database:
/// everywhere but full primary access, to prevent accidental cleaning.
pub open spec fn spec_should_disable_auto_compactions(access_type: AccessType) -> bool {
    access_type != AccessType::Primary
}

/// Whether automatic compactions are disabled for the whole database.
pub fn should_disable_auto_compactions(access_type: &AccessType) -> (r: bool)
    ensures
        r == spec_should_disable_auto_compactions(*access_type),
{
    !matches!(access_type, AccessType::Primary)
}

/// The columns whose keys embed a slot other than as a range-deletable
/// prefix: retention for them runs through the compaction filter, while
/// slot-prefixed columns are cleaned by direct range deletion.
pub open spec fn spec_cf_compaction_eligible(col: ColumnKind) -> bool {
    col == ColumnKind::TransactionStatus || col == ColumnKind::TransactionMemos || col
        == ColumnKind::AddressSignatures
}

/// Whether `col` runs the retention filter under compaction.
pub fn cf_compaction_eligible(col: ColumnKind) -> (r: bool)
    ensures
        r == spec_cf_compaction_eligible(col),
{
    col == ColumnKind::TransactionStatus || col == ColumnKind::TransactionMemos || col
        == ColumnKind::AddressSignatures
}

/// Whether two strings hold the same characters.
pub fn str_eq(a: &str, b: &str) -> (r: bool)
    ensures
        r <==> a@ == b@,
{
    let r: bool = bytes_eq(a.as_bytes(), b.as_bytes());
    proof {
        vstd::utf8::encode_utf8_decode_utf8(a@);
        vstd::utf8::encode_utf8_decode_utf8(b@);
    }
    r
}

/// Whether the column named `cf_name` runs the retention filter under
/// compaction, by its stable name.
pub fn should_enable_cf_compaction(cf_name: &str) -> (r: bool)
    ensures
        r <==> (cf_name@ == ColumnKind::TransactionStatus.spec_name() || cf_name@
            == ColumnKind::TransactionMemos.spec_name() || cf_name@
            == ColumnKind::AddressSignatures.spec_name()),
{
    str_eq(cf_name, ColumnKind::TransactionStatus.name()) || str_eq(
        cf_name,
        ColumnKind::TransactionMemos.name(),
    ) || str_eq(cf_name, ColumnKind::AddressSignatures.name())
}

/// Whether `col` stores its values compressed when compression is
/// configured: only transaction statuses opt in.
pub open spec fn spec_should_enable_compression(col: ColumnKind) -> bool {
    col == ColumnKind::TransactionStatus
}

/// Whether `col` stores its values compressed when compression is
/// configured.
pub fn should_enable_compression(col: ColumnKind) -> (r: bool)
    ensures
        r == spec_should_enable_compression(col),
{
    col == ColumnKind::TransactionStatus
}

/// Database-wide engine options, as plain values.
#[derive(Debug, PartialEq, Eq)]
pub struct DbOptionsPlan {
    pub create_if_missing: bool,
    pub create_missing_column_families: bool,
    pub max_background_compactions: usize,
    pub max_background_flushes: usize,
    pub max_total_wal_size: u64,
    pub disable_auto_compactions: bool,
    pub max_log_file_size: u64,
    pub keep_log_file_num: u64,
    pub unlimited_open_files: bool,
    pub wal_recovery_mode: Option<RecoveryMode>,
}

/// Computes the database-wide options: create missing state, split thread
/// pools so compactions cannot stall flushes, bound the log, and keep files
/// open without limit (required for a secondary instance).
pub fn get_db_options(blockstore_options: &BlockstoreOptions) -> (r: DbOptionsPlan)
    ensures
        r.create_if_missing,
        r.create_missing_column_families,
        r.max_background_compactions == blockstore_options.num_rocksdb_compaction_threads,
        r.max_background_flushes == blockstore_options.num_rocksdb_flush_threads,
        r.max_total_wal_size == 4 * 1024 * 1024 * 1024u64,
        r.disable_auto_compactions == spec_should_disable_auto_compactions(
            blockstore_options.access_type,
        ),
        r.max_log_file_size == 50 * 1024 * 1024u64,
        r.keep_log_file_num == 10,
        r.unlimited_open_files,
        r.wal_recovery_mode == blockstore_options.recovery_mode,
{
    DbOptionsPlan {
        create_if_missing: true,
        create_missing_column_families: true,
        max_background_compactions: blockstore_options.num_rocksdb_compaction_threads,
        max_background_flushes: blockstore_options.num_rocksdb_flush_threads,
        max_total_wal_size: 4 * 1024 * 1024 * 1024,
        disable_auto_compactions: should_disable_auto_compactions(
            &blockstore_options.access_type,
        ),
        max_log_file_size: 50 * 1024 * 1024,
        keep_log_file_num: 10,
        unlimited_open_files: true,
        wal_recovery_mode: blockstore_options.recovery_mode,
    }
}

/// Per-column engine options, as plain values.
#[derive(Clone, Copy, Debug, PartialEq, Eq, Structural)]
pub struct CfOptionsPlan {
    pub max_write_buffer_number: u64,
    pub write_buffer_size: u64,
    pub level_zero_file_num_compaction_trigger: u64,
    pub max_bytes_for_level_base: u64,
    pub target_file_size_base: u64,
    pub disable_auto_compactions: bool,
    /// Whether the slot-retention compaction filter is installed.
    pub attach_retention_filter: bool,
    pub compression: CompressionType,
}

/// The options a well-known column gets, per its compaction eligibility and
/// compression opt-in.
pub fn get_cf_options(col: ColumnKind, options: &BlockstoreOptions) -> (r: CfOptionsPlan)
    ensures
        r.max_write_buffer_number == 8,
        r.write_buffer_size == MAX_WRITE_BUFFER_SIZE,
        r.level_zero_file_num_compaction_trigger == 4,
        r.max_bytes_for_level_base == 4 * MAX_WRITE_BUFFER_SIZE,
        r.target_file_size_base == 4 * MAX_WRITE_BUFFER_SIZE / 10,
        r.disable_auto_compactions == spec_should_disable_auto_compactions(options.access_type),
        r.attach_retention_filter == (!spec_should_disable_auto_compactions(options.access_type)
            && spec_cf_compaction_eligible(col)),
        r.compression == (if spec_should_enable_compression(col) {
            options.column_options.compression_type
        } else {
            CompressionType::NoCompression
        }),
{
    let file_num_compaction_trigger: u64 = 4;
    let total_size_base: u64 = MAX_WRITE_BUFFER_SIZE * file_num_compaction_trigger;
    let file_size_base: u64 = total_size_base / 10;
    let disable_auto_compactions: bool = should_disable_auto_compactions(&options.access_type);
    CfOptionsPlan {
        max_write_buffer_number: 8,
        write_buffer_size: MAX_WRITE_BUFFER_SIZE,
        level_zero_file_num_compaction_trigger: file_num_compaction_trigger,
        max_bytes_for_level_base: total_size_base,
        target_file_size_base: file_size_base,
        disable_auto_compactions,
        attach_retention_filter: !disable_auto_compactions && cf_compaction_eligible(col),
        compression: if should_enable_compression(col) {
            options.column_options.compression_type
        } else {
            CompressionType::NoCompression
        },
    }
}

/// The configuration a column descriptor carries.
#[derive(Debug, PartialEq, Eq)]
pub enum CfConfig {
    /// A column of the current schema, fully tuned.
    Known(CfOptionsPlan),
    /// A column found on disk that this software does not know: a minimal
    /// write buffer and no compactions, so it is carried along untouched.
    Unknown,
}

/// One column family to open.
#[derive(Debug, PartialEq, Eq)]
pub struct CfDescriptorPlan {
    pub name: String,
    pub config: CfConfig,
}

/// Write buffer granted to unknown columns, in bytes.
pub const UNKNOWN_CF_WRITE_BUFFER_SIZE: u64 = 1024 * 1024;

/// Whether `name` belongs to the current schema or is the engine's default
/// column, which needs no descriptor.
pub open spec fn spec_is_known_name(name: Seq<char>) -> bool {
    ||| name == ColumnKind::SlotMeta.spec_name()
    ||| name == ColumnKind::DeadSlots.spec_name()
    ||| name == ColumnKind::ErasureMeta.spec_name()
    ||| name == ColumnKind::Orphans.spec_name()
    ||| name == ColumnKind::BankHash.spec_name()
    ||| name == ColumnKind::Root.spec_name()
    ||| name == ColumnKind::Index.spec_name()
    ||| name == ColumnKind::ShredData.spec_name()
    ||| name == ColumnKind::ShredCode.spec_name()
    ||| name == ColumnKind::TransactionStatus.spec_name()
    ||| name == ColumnKind::AddressSignatures.spec_name()
    ||| name == ColumnKind::TransactionMemos.spec_name()
    ||| name == ColumnKind::TransactionStatusIndex.spec_name()
    ||| name == ColumnKind::Rewards.spec_name()
    ||| name == ColumnKind::Blocktime.spec_name()
    ||| name == ColumnKind::PerfSamples.spec_name()
    ||| name == ColumnKind::BlockHeight.spec_name()
    ||| name == ColumnKind::OptimisticSlots.spec_name()
    ||| name == ColumnKind::MerkleRootMeta.spec_name()
    ||| name == "default"@
}

/// Whether `name` belongs to the current schema or is the engine's default
/// column.
pub fn is_known_name(name: &str) -> (r: bool)
    ensures
        r == spec_is_known_name(name@),
{
    let cols: Vec<ColumnKind> = columns();
    let mut i: usize = 0;
    let mut found: bool = false;
    while i < cols.len()
        invariant
            i <= cols@.len(),
            cols@ =~= columns_spec_list(),
            found <==> exists|j: int| 0 <= j < i && name@ == (#[trigger] cols@[j]).spec_name(),
        decreases cols@.len() - i,
    {
        if str_eq(name, cols[i].name()) {
            found = true;
        }
        i = i + 1;
    }
    let r: bool = found || str_eq(name, "default");
    proof {
        if r {
            assert(spec_is_known_name(name@));
        } else {
            assert(forall|j: int|
                0 <= j < cols@.len() ==> name@ != (#[trigger] cols@[j]).spec_name());
            assert(name@ != ColumnKind::SlotMeta.spec_name()) by {
                assert(cols@[6] == ColumnKind::SlotMeta);
            }
        }
    }
    r
}

/// The schema's columns in descriptor order.
pub open spec fn columns_spec_list() -> Seq<ColumnKind> {
    seq![
        ColumnKind::ErasureMeta,
        ColumnKind::DeadSlots,
        ColumnKind::Index,
        ColumnKind::Orphans,
        ColumnKind::BankHash,
        ColumnKind::Root,
        ColumnKind::SlotMeta,
        ColumnKind::ShredData,
        ColumnKind::ShredCode,
        ColumnKind::TransactionStatus,
        ColumnKind::AddressSignatures,
        ColumnKind::TransactionMemos,
        ColumnKind::TransactionStatusIndex,
        ColumnKind::Rewards,
        ColumnKind::Blocktime,
        ColumnKind::PerfSamples,
        ColumnKind::BlockHeight,
        ColumnKind::OptimisticSlots,
        ColumnKind::MerkleRootMeta,
    ]
}

/// The names found on disk that the schema does not know, in order.
pub open spec fn spec_unknown_names(detected: Seq<Seq<char>>) -> Seq<Seq<char>>
    decreases detected.len(),
{
    if detected.len() == 0 {
        Seq::empty()
    } else {
        let rest = spec_unknown_names(detected.drop_last());
        if spec_is_known_name(detected.last()) {
            rest
        } else {
            rest.push(detected.last())
        }
    }
}

/// Computes the column descriptors an open needs.  Every known column gets
/// its tuned options.  Under primary access, every column family detected on
/// disk that the schema does not know is opened too, with minimal resources,
/// so that a database written by newer software still opens without data
/// loss; a secondary instance opens the known set alone.
pub fn cf_descriptors(options: &BlockstoreOptions, detected: &Vec<String>) -> (r: Vec<
    CfDescriptorPlan,
>)
    ensures
        r@.len() >= 19,
        forall|i: int|
            0 <= i < 19 ==> (#[trigger] r@[i]).name@ == columns_spec_list()[i].spec_name(),
        forall|i: int|
            0 <= i < 19 ==> ((#[trigger] r@[i]).config matches CfConfig::Known(plan)
                && plan.attach_retention_filter == (!spec_should_disable_auto_compactions(
                options.access_type,
            ) && spec_cf_compaction_eligible(columns_spec_list()[i]))),
        options.access_type == AccessType::Secondary ==> r@.len() == 19,
        options.access_type != AccessType::Secondary ==> r@.len() == 19 + spec_unknown_names(
            detected.deep_view(),
        ).len() && (forall|j: int|
            0 <= j < spec_unknown_names(detected.deep_view()).len() ==> (#[trigger] r@[19 + j]).name@
                == spec_unknown_names(detected.deep_view())[j] && r@[19 + j].config
                == CfConfig::Unknown),
{
    let cols: Vec<ColumnKind> = columns();
    let mut r: Vec<CfDescriptorPlan> = Vec::new();
    let mut i: usize = 0;
    while i < cols.len()
        invariant
            i <= cols@.len(),
            cols@ =~= columns_spec_list(),
            r@.len() == i,
            forall|k: int|
                0 <= k < i ==> (#[trigger] r@[k]).name@ == columns_spec_list()[k].spec_name(),
            forall|k: int|
                0 <= k < i ==> ((#[trigger] r@[k]).config matches CfConfig::Known(plan)
                    && plan.attach_retention_filter == (!spec_should_disable_auto_compactions(
                    options.access_type,
                ) && spec_cf_compaction_eligible(columns_spec_list()[k]))),
        decreases cols@.len() - i,
    {
        let col: ColumnKind = cols[i];
        let name: String = col.name().to_owned();
        r.push(CfDescriptorPlan { name, config: CfConfig::Known(get_cf_options(col, options)) });
        i = i + 1;
    }
    if matches!(options.access_type, AccessType::Secondary) {
        return r;
    }
    let mut j: usize = 0;
    while j < detected.len()
        invariant
            j <= detected@.len(),
            r@.len() == 19 + spec_unknown_names(detected.deep_view().take(j as int)).len(),
            forall|k: int|
                0 <= k < 19 ==> (#[trigger] r@[k]).name@ == columns_spec_list()[k].spec_name(),
            forall|k: int|
                0 <= k < 19 ==> ((#[trigger] r@[k]).config matches CfConfig::Known(plan)
                    && plan.attach_retention_filter == (!spec_should_disable_auto_compactions(
                    options.access_type,
                ) && spec_cf_compaction_eligible(columns_spec_list()[k]))),
            forall|k: int|
                0 <= k < spec_unknown_names(detected.deep_view().take(j as int)).len() ==> (
                #[trigger] r@[19 + k]).name@ == spec_unknown_names(
                    detected.deep_view().take(j as int),
                )[k] && r@[19 + k].config == CfConfig::Unknown,
        decreases detected@.len() - j,
    {
        let name: &String = &detected[j];
        proof {
            assert(detected.deep_view().take(j + 1).drop_last() =~= detected.deep_view().take(
                j as int,
            ));
            assert(detected.deep_view().take(j + 1).last() == detected@[j as int]@);
        }
        if !is_known_name(name.as_str()) {
            let copy: String = name.as_str().to_owned();
            r.push(CfDescriptorPlan { name: copy, config: CfConfig::Unknown });
        }
        j = j + 1;
    }
    proof {
        assert(detected.deep_view().take(detected@.len() as int) =~= detected.deep_view());
    }
    r
}

/// The columns an open enables periodic compaction for: none when automatic
/// compactions are disabled by the access mode, else exactly the
/// retention-filtered columns, which reclaim space through compaction.
pub fn configure_compaction_plan(access_type: &AccessType) -> (r: Vec<ColumnKind>)
    ensures
        spec_should_disable_auto_compactions(*access_type) ==> r@.len() == 0,
        !spec_should_disable_auto_compactions(*access_type) ==> r@ =~= seq![
            ColumnKind::TransactionStatus,
            ColumnKind::AddressSignatures,
            ColumnKind::TransactionMemos,
        ],
{
    let mut r: Vec<ColumnKind> = Vec::new();
    if should_disable_auto_compactions(access_type) {
        return r;
    }
    r.push(ColumnKind::TransactionStatus);
    r.push(ColumnKind::AddressSignatures);
    r.push(ColumnKind::TransactionMemos);
    r
}

/// No detected column is left behind: every name found on disk, other than
/// the engine's own default column, appears in the descriptor plan, so an
/// unknown column family never prevents the store from opening.
pub proof fn lemma_unknown_names_complete(detected: Seq<Seq<char>>, j: int)
    requires
        0 <= j < detected.len(),
        !spec_is_known_name(detected[j]),
    ensures
        spec_unknown_names(detected).contains(detected[j]),
    decreases detected.len(),
{
    if j == detected.len() - 1 {
        assert(detected.last() == detected[j]);
        assert(spec_unknown_names(detected).last() == detected[j]);
    } else {
        lemma_unknown_names_complete(detected.drop_last(), j);
        let rest = spec_unknown_names(detected.drop_last());
        let witness = choose|w: int| 0 <= w < rest.len() && rest[w] == detected.drop_last()[j];
        if spec_is_known_name(detected.last()) {
            assert(spec_unknown_names(detected)[witness] == detected[j]);
        } else {
            assert(spec_unknown_names(detected)[witness] == detected[j]);
        }
    }
}

} // verus!
