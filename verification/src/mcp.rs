//! Registry of workflow templates and of the executions recorded against
//! them.
//!
//! The registry owns two content-addressed tables, one of template records
//! and one of execution records, each keyed by the address derived from the
//! record kind, the caller-chosen identifier and the caller identity. Every
//! operation validates its inputs, checks the caller's authority, and either
//! fails before any field is mutated or applies the whole state transition
//! and returns the notification the host should publish.

use vstd::prelude::*;

verus! {

use crate::addressing::derive_address;
use crate::addressing::spec_derive;
use crate::encoding::append_flag;
use crate::encoding::append_len_prefixed;
use crate::encoding::append_time_word;
use crate::encoding::append_word;
use crate::encoding::clone_bytes;
use crate::encoding::lemma_len_prefixed_len;
use crate::encoding::lemma_time_word_len;
use crate::encoding::lemma_word_len;
use crate::encoding::spec_flag;
use crate::encoding::spec_len_prefixed;
use crate::encoding::spec_time_word;
use crate::encoding::spec_word;
use crate::keys::Pubkey;
use vstd::bytes::spec_u32_to_le_bytes;
use vstd::bytes::u32_to_le_bytes;

/// Record kind tag of template records: the first word of their wire form
/// and the namespace of their address derivation.
pub const TEMPLATE_TAG: u64 = 1;

/// Record kind tag of execution records.
pub const EXECUTION_TAG: u64 = 2;

/// Greatest accepted byte length of a template identifier.
pub const MAX_TEMPLATE_ID_LEN: usize = 64;

/// Greatest accepted byte length of a template name.
pub const MAX_TEMPLATE_NAME_LEN: usize = 100;

/// Greatest accepted byte length of a template version string.
pub const MAX_TEMPLATE_VERSION_LEN: usize = 20;

/// Greatest accepted byte length of a template category.
pub const MAX_CATEGORY_LEN: usize = 20;

/// Greatest accepted byte length of a template metadata blob.
pub const MAX_METADATA_LEN: usize = 1024;

/// Greatest accepted byte length of a task identifier.
pub const MAX_TASK_ID_LEN: usize = 64;

/// Greatest accepted byte length of an input or output digest.
pub const MAX_HASH_LEN: usize = 64;

/// Why a registry operation was refused. Every failure leaves the registry
/// exactly as it was.
#[derive(Clone, Copy, PartialEq, Eq, Structural, Debug)]
pub enum ErrorCode {
    /// A template identifier exceeds [`MAX_TEMPLATE_ID_LEN`].
    TemplateTooLong,
    /// A template name exceeds [`MAX_TEMPLATE_NAME_LEN`].
    NameTooLong,
    /// A template version exceeds [`MAX_TEMPLATE_VERSION_LEN`].
    VersionTooLong,
    /// A category exceeds [`MAX_CATEGORY_LEN`].
    CategoryTooLong,
    /// A task identifier exceeds [`MAX_TASK_ID_LEN`].
    TaskIdTooLong,
    /// A digest exceeds [`MAX_HASH_LEN`].
    HashTooLong,
    /// A metadata blob exceeds [`MAX_METADATA_LEN`].
    MetadataTooLarge,
    /// An execution that already left `InProgress` cannot be updated again.
    InvalidExecutionStatus,
    /// The caller is not the owner the operation demands.
    Unauthorized,
    /// The derived address is already occupied by a record.
    AlreadyExists,
    /// No record lives at the given address.
    AccountNotFound,
    /// Every bump value collided with the reserved address class.
    AddressDerivationExhausted,
    /// A counter cannot grow any further.
    NumericOverflow,
}

/// Status of a recorded execution. `Success` and `Failure` are terminal.
#[derive(Clone, Copy, PartialEq, Eq, Structural, Debug)]
pub enum ExecutionStatus {
    InProgress,
    Success,
    Failure,
}

impl ExecutionStatus {
    /// Whether the status permits no further transition.
    pub open spec fn spec_is_terminal(self) -> bool {
        self == ExecutionStatus::Success || self == ExecutionStatus::Failure
    }

    pub fn is_terminal(self) -> (r: bool)
        ensures
            r == self.spec_is_terminal(),
    {
        self == ExecutionStatus::Success || self == ExecutionStatus::Failure
    }

    /// The status's wire code.
    pub open spec fn spec_code(self) -> u32 {
        match self {
            ExecutionStatus::InProgress => 0,
            ExecutionStatus::Success => 1,
            ExecutionStatus::Failure => 2,
        }
    }

    pub fn code(self) -> (r: u32)
        ensures
            r == self.spec_code(),
    {
        match self {
            ExecutionStatus::InProgress => 0,
            ExecutionStatus::Success => 1,
            ExecutionStatus::Failure => 2,
        }
    }
}

impl Default for ExecutionStatus {
    /// A fresh execution starts in progress.
    fn default() -> (r: Self)
        ensures
            r == ExecutionStatus::InProgress,
    {
        ExecutionStatus::InProgress
    }
}

/// Derivation salt proving a template record's address was computed
/// canonically.
#[derive(Clone, Copy, PartialEq, Eq, Structural, Debug)]
pub struct TemplateBumps {
    pub template: u8,
}

/// Derivation salt proving an execution record's address was computed
/// canonically.
#[derive(Clone, Copy, PartialEq, Eq, Structural, Debug)]
pub struct ExecutionBumps {
    pub execution: u8,
}

/// A reusable workflow template.
pub struct TemplateAccount {
    /// Caller-chosen identifier, unique within the creator's namespace.
    pub template_id: Vec<u8>,
    /// Display name; the creator may rewrite it.
    pub template_name: Vec<u8>,
    /// Version string; the creator may rewrite it.
    pub template_version: Vec<u8>,
    /// Category label; fixed at creation.
    pub category: Vec<u8>,
    /// Identity of the creator; immutable after creation.
    pub creator: Pubkey,
    /// Opaque metadata reference; the creator may rewrite it.
    pub metadata: Vec<u8>,
    /// Creation time.
    pub created_at: i64,
    /// Time of the last mutation.
    pub updated_at: i64,
    /// Number of executions recorded against this template.
    pub usage_count: u64,
    /// Whether the template is offered to new callers.
    pub is_active: bool,
    /// Address derivation salt.
    pub bumps: TemplateBumps,
}

impl TemplateAccount {
    /// Field bounds and timestamp order every stored template satisfies.
    pub open spec fn wf(self) -> bool {
        &&& self.template_id@.len() <= MAX_TEMPLATE_ID_LEN
        &&& self.template_name@.len() <= MAX_TEMPLATE_NAME_LEN
        &&& self.template_version@.len() <= MAX_TEMPLATE_VERSION_LEN
        &&& self.category@.len() <= MAX_CATEGORY_LEN
        &&& self.metadata@.len() <= MAX_METADATA_LEN
        &&& 0 <= self.created_at <= self.updated_at
    }

    /// The byte capacity reserved for a template record with this
    /// identifier: every fixed-width field at its exact width, the
    /// identifier (fixed at creation) at its actual length, and every
    /// rewritable variable-length field at its declared maximum, each
    /// variable-length field behind a 4-byte count.
    pub open spec fn spec_space(template_id: Seq<u8>) -> int {
        (8 + 32 + 8 + 8 + 8 + 1 + 1 + 4) + (4 + template_id.len()) + (4
            + MAX_TEMPLATE_NAME_LEN) + (4 + MAX_TEMPLATE_VERSION_LEN) + (4 + MAX_CATEGORY_LEN)
            + MAX_METADATA_LEN
    }

    /// Byte capacity to reserve for a template record keyed by
    /// `template_id`, computed once at creation and valid for every later
    /// rewrite of the record's mutable fields.
    pub fn space(template_id: &Vec<u8>) -> (r: usize)
        requires
            template_id@.len() <= MAX_TEMPLATE_ID_LEN,
        ensures
            r == TemplateAccount::spec_space(template_id@),
    {
        let fixed_size: usize = 8 + 32 + 8 + 8 + 8 + 1 + 1 + 4;
        let variable_size: usize = 4 + template_id.len() + (4 + MAX_TEMPLATE_NAME_LEN) + (4
            + MAX_TEMPLATE_VERSION_LEN) + (4 + MAX_CATEGORY_LEN) + MAX_METADATA_LEN;
        fixed_size + variable_size
    }

    /// The record's wire form: the record kind tag, then the fields in
    /// declaration order, variable-length fields behind a 4-byte count.
    pub open spec fn spec_encode(self) -> Seq<u8> {
        spec_word(TEMPLATE_TAG) + spec_len_prefixed(self.template_id@) + spec_len_prefixed(
            self.template_name@,
        ) + spec_len_prefixed(self.template_version@) + spec_len_prefixed(self.category@)
            + self.creator.spec_bytes() + spec_len_prefixed(self.metadata@) + spec_time_word(
            self.created_at,
        ) + spec_time_word(self.updated_at) + spec_word(self.usage_count) + spec_flag(
            self.is_active,
        ) + seq![self.bumps.template]
    }

    /// Serializes the record.
    pub fn encode(&self) -> (r: Vec<u8>)
        requires
            self.wf(),
        ensures
            r@ == self.spec_encode(),
    {
        let mut out: Vec<u8> = Vec::new();
        append_word(&mut out, TEMPLATE_TAG);
        append_len_prefixed(&mut out, &self.template_id);
        append_len_prefixed(&mut out, &self.template_name);
        append_len_prefixed(&mut out, &self.template_version);
        append_len_prefixed(&mut out, &self.category);
        self.creator.append_bytes(&mut out);
        append_len_prefixed(&mut out, &self.metadata);
        append_time_word(&mut out, self.created_at);
        append_time_word(&mut out, self.updated_at);
        append_word(&mut out, self.usage_count);
        append_flag(&mut out, self.is_active);
        out.push(self.bumps.template);
        proof {
            assert(out@ == self.spec_encode());
        }
        out
    }

    /// The wire form's exact length: the tag and the fixed-width fields at
    /// their widths, every variable-length field at its actual length.
    pub proof fn lemma_encoding_len(self)
        requires
            self.wf(),
        ensures
            self.spec_encode().len() == (8 + 32 + 8 + 8 + 8 + 1 + 1) + (4
                + self.template_id@.len()) + (4 + self.template_name@.len()) + (4
                + self.template_version@.len()) + (4 + self.category@.len()) + (4
                + self.metadata@.len()),
    {
        lemma_len_prefixed_len(self.template_id@);
        lemma_len_prefixed_len(self.template_name@);
        lemma_len_prefixed_len(self.template_version@);
        lemma_len_prefixed_len(self.category@);
        lemma_len_prefixed_len(self.metadata@);
        lemma_word_len(TEMPLATE_TAG);
        lemma_word_len(self.usage_count);
        lemma_time_word_len(self.created_at);
        lemma_time_word_len(self.updated_at);
        self.creator.lemma_bytes_len();
    }

    /// The reserved capacity always holds the wire form, and is exactly its
    /// size once every rewritable variable-length field stands at its
    /// declared maximum.
    pub proof fn lemma_space_bounds_encoding(self)
        requires
            self.wf(),
        ensures
            self.spec_encode().len() <= TemplateAccount::spec_space(self.template_id@),
            (self.template_name@.len() == MAX_TEMPLATE_NAME_LEN && self.template_version@.len()
                == MAX_TEMPLATE_VERSION_LEN && self.category@.len() == MAX_CATEGORY_LEN
                && self.metadata@.len() == MAX_METADATA_LEN) ==> self.spec_encode().len()
                == TemplateAccount::spec_space(self.template_id@),
    {
        self.lemma_encoding_len();
    }
}

/// One recorded execution of a template.
pub struct ExecutionAccount {
    /// Caller-chosen task identifier, unique within the user's namespace.
    pub task_id: Vec<u8>,
    /// Address of the template this execution ran; a lookup relation, not
    /// ownership.
    pub template: Pubkey,
    /// Identity of the invoking caller; immutable.
    pub user: Pubkey,
    /// Digest of the input payload.
    pub inputs_hash: Vec<u8>,
    /// Digest of the output payload.
    pub outputs_hash: Vec<u8>,
    /// Lifecycle state.
    pub status: ExecutionStatus,
    /// Creation time.
    pub started_at: i64,
    /// Completion time; zero exactly while the execution is in progress.
    pub completed_at: i64,
    /// Address derivation salt.
    pub bumps: ExecutionBumps,
}

impl ExecutionAccount {
    /// Field bounds and the status/completion coupling every stored
    /// execution satisfies: `completed_at` is zero exactly while the status
    /// is `InProgress`.
    pub open spec fn wf(self) -> bool {
        &&& self.task_id@.len() <= MAX_TASK_ID_LEN
        &&& self.inputs_hash@.len() <= MAX_HASH_LEN
        &&& self.outputs_hash@.len() <= MAX_HASH_LEN
        &&& self.started_at >= 0
        &&& self.completed_at >= 0
        &&& (self.status == ExecutionStatus::InProgress <==> self.completed_at == 0)
    }

    /// The byte capacity reserved for an execution record keyed by
    /// `task_id`: fixed-width fields at their exact widths, the identifier
    /// at its actual length, both digests (rewritable) at their declared
    /// maximum.
    pub open spec fn spec_space(task_id: Seq<u8>) -> int {
        (8 + 32 + 32 + 4 + 8 + 8 + 1) + (4 + task_id.len()) + (4 + MAX_HASH_LEN) + (4
            + MAX_HASH_LEN)
    }

    /// Byte capacity to reserve for an execution record keyed by `task_id`,
    /// computed once at creation.
    pub fn space(task_id: &Vec<u8>) -> (r: usize)
        requires
            task_id@.len() <= MAX_TASK_ID_LEN,
        ensures
            r == ExecutionAccount::spec_space(task_id@),
    {
        let fixed_size: usize = 8 + 32 + 32 + 4 + 8 + 8 + 1;
        let variable_size: usize = 4 + task_id.len() + (4 + MAX_HASH_LEN) + (4 + MAX_HASH_LEN);
        fixed_size + variable_size
    }

    /// The record's wire form: the record kind tag, then the fields in
    /// declaration order; the status is a 4-byte word.
    pub open spec fn spec_encode(self) -> Seq<u8> {
        spec_word(EXECUTION_TAG) + spec_len_prefixed(self.task_id@) + self.template.spec_bytes()
            + self.user.spec_bytes() + spec_len_prefixed(self.inputs_hash@) + spec_len_prefixed(
            self.outputs_hash@,
        ) + spec_u32_to_le_bytes(self.status.spec_code()) + spec_time_word(self.started_at)
            + spec_time_word(self.completed_at) + seq![self.bumps.execution]
    }

    /// Serializes the record.
    pub fn encode(&self) -> (r: Vec<u8>)
        requires
            self.wf(),
        ensures
            r@ == self.spec_encode(),
    {
        let mut out: Vec<u8> = Vec::new();
        append_word(&mut out, EXECUTION_TAG);
        append_len_prefixed(&mut out, &self.task_id);
        self.template.append_bytes(&mut out);
        self.user.append_bytes(&mut out);
        append_len_prefixed(&mut out, &self.inputs_hash);
        append_len_prefixed(&mut out, &self.outputs_hash);
        let mut status_bytes = u32_to_le_bytes(self.status.code());
        out.append(&mut status_bytes);
        append_time_word(&mut out, self.started_at);
        append_time_word(&mut out, self.completed_at);
        out.push(self.bumps.execution);
        proof {
            assert(out@ == self.spec_encode());
        }
        out
    }

    /// The wire form's exact length.
    pub proof fn lemma_encoding_len(self)
        requires
            self.wf(),
        ensures
            self.spec_encode().len() == (8 + 32 + 32 + 4 + 8 + 8 + 1) + (4 + self.task_id@.len())
                + (4 + self.inputs_hash@.len()) + (4 + self.outputs_hash@.len()),
    {
        lemma_len_prefixed_len(self.task_id@);
        lemma_len_prefixed_len(self.inputs_hash@);
        lemma_len_prefixed_len(self.outputs_hash@);
        lemma_word_len(EXECUTION_TAG);
        lemma_time_word_len(self.started_at);
        lemma_time_word_len(self.completed_at);
        self.template.lemma_bytes_len();
        self.user.lemma_bytes_len();
        vstd::bytes::lemma_auto_spec_u32_to_from_le_bytes();
    }

    /// The reserved capacity always holds the wire form, and is exactly its
    /// size once both digests stand at their declared maximum.
    pub proof fn lemma_space_bounds_encoding(self)
        requires
            self.wf(),
        ensures
            self.spec_encode().len() <= ExecutionAccount::spec_space(self.task_id@),
            (self.inputs_hash@.len() == MAX_HASH_LEN && self.outputs_hash@.len() == MAX_HASH_LEN)
                ==> self.spec_encode().len() == ExecutionAccount::spec_space(self.task_id@),
    {
        self.lemma_encoding_len();
    }
}

/// Notification of a created template.
#[derive(Clone, Debug, PartialEq, Eq)]
pub struct TemplateCreatedEvent {
    pub template_id: Vec<u8>,
    pub creator: Pubkey,
    pub timestamp: i64,
}

/// Notification of an updated template.
#[derive(Clone, Debug, PartialEq, Eq)]
pub struct TemplateUpdatedEvent {
    pub template_id: Vec<u8>,
    pub updater: Pubkey,
    pub timestamp: i64,
}

/// Notification of a recorded execution.
#[derive(Clone, Debug, PartialEq, Eq)]
pub struct ExecutionRecordedEvent {
    pub task_id: Vec<u8>,
    pub template_id: Vec<u8>,
    pub user: Pubkey,
    pub status: ExecutionStatus,
    pub timestamp: i64,
}

/// Notification of an updated execution.
#[derive(Clone, Debug, PartialEq, Eq)]
pub struct ExecutionUpdatedEvent {
    pub task_id: Vec<u8>,
    pub status: ExecutionStatus,
    pub timestamp: i64,
}

/// Whether every key of the table occurs exactly once.
pub open spec fn keys_unique<T>(s: Seq<(Pubkey, T)>) -> bool {
    forall|i: int, j: int| 0 <= i < j < s.len() ==> s[i].0 != s[j].0
}

/// Whether some entry of the table carries the key `a`.
pub open spec fn has_key<T>(s: Seq<(Pubkey, T)>, a: Pubkey) -> bool {
    exists|i: int| 0 <= i < s.len() && s[i].0 == a
}

/// The value stored under the key `a`.
pub open spec fn value_at<T>(s: Seq<(Pubkey, T)>, a: Pubkey) -> T
    recommends
        has_key(s, a),
{
    s[choose|i: int| 0 <= i < s.len() && s[i].0 == a].1
}

/// With unique keys, the entry at any index carrying `a` is the entry under
/// `a`.
pub proof fn lemma_value_at<T>(s: Seq<(Pubkey, T)>, a: Pubkey, i: int)
    requires
        keys_unique(s),
        0 <= i < s.len(),
        s[i].0 == a,
    ensures
        has_key(s, a),
        value_at(s, a) == s[i].1,
{
    assert(has_key(s, a));
    let j = choose|j: int| 0 <= j < s.len() && s[j].0 == a;
    if i < j {
        assert(s[i].0 != s[j].0);
    } else if j < i {
        assert(s[j].0 != s[i].0);
    }
}

/// Finds the entry keyed `a`, if any.
fn find_key_index<T>(table: &Vec<(Pubkey, T)>, a: Pubkey) -> (r: Option<usize>)
    ensures
        match r {
            Some(i) => i < table@.len() && table@[i as int].0 == a,
            None => !has_key(table@, a),
        },
{
    let mut i: usize = 0;
    while i < table.len()
        invariant
            i <= table@.len(),
            forall|k: int| 0 <= k < i ==> table@[k].0 != a,
        decreases table@.len() - i,
    {
        if table[i].0 == a {
            return Some(i);
        }
        i = i + 1;
    }
    None
}

/// The registry holding every template and execution record, each under its
/// derived address.
pub struct McpRegistry {
    pub templates: Vec<(Pubkey, TemplateAccount)>,
    pub executions: Vec<(Pubkey, ExecutionAccount)>,
}

/// The template entry as it stands after an execution referencing `a` was
/// recorded at time `now`: the usage counter stepped by one and the update
/// time refreshed; entries under other keys are untouched.
pub open spec fn spec_touch_usage(
    entry: (Pubkey, TemplateAccount),
    a: Pubkey,
    now: i64,
) -> (Pubkey, TemplateAccount) {
    if entry.0 == a {
        (
            entry.0,
            TemplateAccount {
                template_id: entry.1.template_id,
                template_name: entry.1.template_name,
                template_version: entry.1.template_version,
                category: entry.1.category,
                creator: entry.1.creator,
                metadata: entry.1.metadata,
                created_at: entry.1.created_at,
                updated_at: now,
                usage_count: (entry.1.usage_count + 1) as u64,
                is_active: entry.1.is_active,
                bumps: entry.1.bumps,
            },
        )
    } else {
        entry
    }
}

impl McpRegistry {
    /// Unique keys, and every stored record well formed.
    pub open spec fn wf(self) -> bool {
        &&& keys_unique(self.templates@)
        &&& keys_unique(self.executions@)
        &&& forall|i: int|
            0 <= i < self.templates@.len() ==> (#[trigger] self.templates@[i]).1.wf()
        &&& forall|i: int|
            0 <= i < self.executions@.len() ==> (#[trigger] self.executions@[i]).1.wf()
    }

    /// Whether the clock value `now` is not behind any recorded time, as the
    /// host's monotonic clock guarantees.
    pub open spec fn clock_in_order(self, now: i64) -> bool {
        &&& forall|i: int|
            0 <= i < self.templates@.len() ==> (#[trigger] self.templates@[i]).1.updated_at <= now
        &&& forall|i: int|
            0 <= i < self.executions@.len() ==> (#[trigger] self.executions@[i]).1.started_at
                <= now
    }

    pub fn new() -> (r: McpRegistry)
        ensures
            r.wf(),
            r.templates@.len() == 0,
            r.executions@.len() == 0,
    {
        McpRegistry { templates: Vec::new(), executions: Vec::new() }
    }

    /// Why `initialize_template` with these inputs fails, if it does.
    pub open spec fn spec_init_template_err(
        self,
        template_id: Seq<u8>,
        template_name: Seq<u8>,
        template_version: Seq<u8>,
        category: Seq<u8>,
        creator: Pubkey,
        metadata: Seq<u8>,
    ) -> Option<ErrorCode> {
        spec_init_template_table_err(
            self.templates@,
            template_id,
            template_name,
            template_version,
            category,
            creator,
            metadata,
        )
    }

    /// Creates a template record under its derived address.
    ///
    /// All field bounds are validated before anything is written; on any
    /// failure the registry is unchanged. On success the new record starts
    /// with a zero usage counter, active, both timestamps at `now`, and the
    /// returned notification carries the identifier, the creator and the
    /// creation time.
    pub fn initialize_template(
        &mut self,
        template_id: Vec<u8>,
        template_name: Vec<u8>,
        template_version: Vec<u8>,
        category: Vec<u8>,
        creator: Pubkey,
        metadata: Vec<u8>,
        now: i64,
    ) -> (r: Result<TemplateCreatedEvent, ErrorCode>)
        requires
            old(self).wf(),
            now > 0,
        ensures
            final(self).wf(),
            final(self).executions@ == old(self).executions@,
            match old(self).spec_init_template_err(
                template_id@,
                template_name@,
                template_version@,
                category@,
                creator,
                metadata@,
            ) {
                Some(code) => r == Err::<TemplateCreatedEvent, ErrorCode>(code) && *final(self)
                    == *old(self),
                None => {
                    let (address, bump) = spec_derive(TEMPLATE_TAG, template_id@, creator).unwrap();
                    &&& final(self).templates@ == old(self).templates@.push(
                        (
                            address,
                            (TemplateAccount {
                                template_id,
                                template_name,
                                template_version,
                                category,
                                creator,
                                metadata,
                                created_at: now,
                                updated_at: now,
                                usage_count: 0,
                                is_active: true,
                                bumps: TemplateBumps { template: bump },
                            }),
                        ),
                    )
                    &&& r matches Ok(ev) && ev.template_id@ == template_id@ && ev.creator
                        == creator && ev.timestamp == now
                },
            },
    {
        if template_id.len() > MAX_TEMPLATE_ID_LEN {
            return Err(ErrorCode::TemplateTooLong);
        }
        if template_name.len() > MAX_TEMPLATE_NAME_LEN {
            return Err(ErrorCode::NameTooLong);
        }
        if template_version.len() > MAX_TEMPLATE_VERSION_LEN {
            return Err(ErrorCode::VersionTooLong);
        }
        if category.len() > MAX_CATEGORY_LEN {
            return Err(ErrorCode::CategoryTooLong);
        }
        if metadata.len() > MAX_METADATA_LEN {
            return Err(ErrorCode::MetadataTooLarge);
        }
        let derived = derive_address(TEMPLATE_TAG, &template_id, creator);
        let (address, bump) = match derived {
            Some(pair) => pair,
            None => {
                return Err(ErrorCode::AddressDerivationExhausted);
            },
        };
        if find_key_index(&self.templates, address).is_some() {
            return Err(ErrorCode::AlreadyExists);
        }
        let event_id = clone_bytes(&template_id);
        let account = TemplateAccount {
            template_id,
            template_name,
            template_version,
            category,
            creator,
            metadata,
            created_at: now,
            updated_at: now,
            usage_count: 0,
            is_active: true,
            bumps: TemplateBumps { template: bump },
        };
        self.templates.push((address, account));
        Ok(TemplateCreatedEvent { template_id: event_id, creator, timestamp: now })
    }

    /// Why `record_execution` with these inputs fails, if it does.
    pub open spec fn spec_record_execution_err(
        self,
        task_id: Seq<u8>,
        inputs_hash: Seq<u8>,
        outputs_hash: Seq<u8>,
        template_address: Pubkey,
        user: Pubkey,
    ) -> Option<ErrorCode> {
        spec_record_execution_table_err(
            self.templates@,
            self.executions@,
            task_id,
            inputs_hash,
            outputs_hash,
            template_address,
            user,
        )
    }

    /// Records an execution of the template at `template_address` and, in
    /// the same atomic transaction, steps that template's usage counter by
    /// exactly one and refreshes its update time.
    ///
    /// On any failure neither record advances. On success the new execution
    /// starts at `now`, and is complete at `now` already when the initial
    /// status is terminal, else not complete at all.
    pub fn record_execution(
        &mut self,
        task_id: Vec<u8>,
        inputs_hash: Vec<u8>,
        outputs_hash: Vec<u8>,
        status: ExecutionStatus,
        template_address: Pubkey,
        user: Pubkey,
        now: i64,
    ) -> (r: Result<ExecutionRecordedEvent, ErrorCode>)
        requires
            old(self).wf(),
            now > 0,
            old(self).clock_in_order(now),
        ensures
            final(self).wf(),
            match old(self).spec_record_execution_err(
                task_id@,
                inputs_hash@,
                outputs_hash@,
                template_address,
                user,
            ) {
                Some(code) => r == Err::<ExecutionRecordedEvent, ErrorCode>(code) && *final(self)
                    == *old(self),
                None => {
                    let (execution_address, bump) = spec_derive(
                        EXECUTION_TAG,
                        task_id@,
                        user,
                    ).unwrap();
                    &&& final(self).executions@ == old(self).executions@.push(
                        (
                            execution_address,
                            (ExecutionAccount {
                                task_id,
                                template: template_address,
                                user,
                                inputs_hash,
                                outputs_hash,
                                status,
                                started_at: now,
                                completed_at: if status.spec_is_terminal() {
                                    now
                                } else {
                                    0
                                },
                                bumps: ExecutionBumps { execution: bump },
                            }),
                        ),
                    )
                    &&& final(self).templates@ == old(self).templates@.map_values(
                        |entry: (Pubkey, TemplateAccount)|
                            spec_touch_usage(entry, template_address, now),
                    )
                    &&& r matches Ok(ev) && ev.task_id@ == task_id@ && ev.template_id@ == value_at(
                        old(self).templates@,
                        template_address,
                    ).template_id@ && ev.user == user && ev.status == status && ev.timestamp == now
                },
            },
    {
        if task_id.len() > MAX_TASK_ID_LEN {
            return Err(ErrorCode::TaskIdTooLong);
        }
        if inputs_hash.len() > MAX_HASH_LEN {
            return Err(ErrorCode::HashTooLong);
        }
        if outputs_hash.len() > MAX_HASH_LEN {
            return Err(ErrorCode::HashTooLong);
        }
        let derived = derive_address(EXECUTION_TAG, &task_id, user);
        let (execution_address, bump) = match derived {
            Some(pair) => pair,
            None => {
                return Err(ErrorCode::AddressDerivationExhausted);
            },
        };
        if find_key_index(&self.executions, execution_address).is_some() {
            return Err(ErrorCode::AlreadyExists);
        }
        let template_index = match find_key_index(&self.templates, template_address) {
            Some(i) => i,
            None => {
                return Err(ErrorCode::AccountNotFound);
            },
        };
        proof {
            lemma_value_at(self.templates@, template_address, template_index as int);
        }
        if self.templates[template_index].1.usage_count == u64::MAX {
            return Err(ErrorCode::NumericOverflow);
        }
        let event_task_id = clone_bytes(&task_id);
        let event_template_id = clone_bytes(&self.templates[template_index].1.template_id);
        let record = ExecutionAccount {
            task_id,
            template: template_address,
            user,
            inputs_hash,
            outputs_hash,
            status,
            started_at: now,
            completed_at: if status.is_terminal() {
                now
            } else {
                0
            },
            bumps: ExecutionBumps { execution: bump },
        };
        self.executions.push((execution_address, record));
        let (entry_address, mut template) = self.templates.remove(template_index);
        template.usage_count = template.usage_count + 1;
        template.updated_at = now;
        self.templates.insert(template_index, (entry_address, template));
        proof {
            let s0 = old(self).templates@;
            let mapped = s0.map_values(
                |entry: (Pubkey, TemplateAccount)| spec_touch_usage(entry, template_address, now),
            );
            assert forall|j: int| 0 <= j < s0.len() implies self.templates@[j] == mapped[j] by {
                if j != template_index as int {
                    assert(s0[j].0 != template_address);
                }
            }
            assert(self.templates@ =~= mapped);
        }
        Ok(
            ExecutionRecordedEvent {
                task_id: event_task_id,
                template_id: event_template_id,
                user,
                status,
                timestamp: now,
            },
        )
    }

    /// Why `update_execution` with these inputs fails, if it does.
    pub open spec fn spec_update_execution_err(
        self,
        execution_address: Pubkey,
        caller: Pubkey,
        outputs_hash: Option<Vec<u8>>,
    ) -> Option<ErrorCode> {
        spec_update_execution_table_err(self.executions@, execution_address, caller, outputs_hash)
    }

    /// Applies a status transition to the execution at `execution_address`:
    /// its status becomes `status`, a provided digest replaces the stored
    /// one, and when the new status is terminal the completion time is set
    /// to `now`. Only the record's own user may update it, and only while it
    /// is still in progress.
    pub fn update_execution(
        &mut self,
        execution_address: Pubkey,
        caller: Pubkey,
        status: ExecutionStatus,
        outputs_hash: Option<Vec<u8>>,
        now: i64,
    ) -> (r: Result<ExecutionUpdatedEvent, ErrorCode>)
        requires
            old(self).wf(),
            now > 0,
        ensures
            final(self).wf(),
            final(self).templates@ == old(self).templates@,
            match old(self).spec_update_execution_err(execution_address, caller, outputs_hash) {
                Some(code) => r == Err::<ExecutionUpdatedEvent, ErrorCode>(code) && *final(self)
                    == *old(self),
                None => {
                    &&& final(self).executions@ == old(self).executions@.map_values(
                        |entry: (Pubkey, ExecutionAccount)|
                            spec_transition_execution(
                                entry,
                                execution_address,
                                status,
                                outputs_hash,
                                now,
                            ),
                    )
                    &&& r matches Ok(ev) && ev.task_id@ == value_at(
                        old(self).executions@,
                        execution_address,
                    ).task_id@ && ev.status == status && ev.timestamp == now
                },
            },
    {
        let execution_index = match find_key_index(&self.executions, execution_address) {
            Some(i) => i,
            None => {
                return Err(ErrorCode::AccountNotFound);
            },
        };
        proof {
            lemma_value_at(self.executions@, execution_address, execution_index as int);
        }
        if !(self.executions[execution_index].1.user == caller) {
            return Err(ErrorCode::Unauthorized);
        }
        if !(self.executions[execution_index].1.status == ExecutionStatus::InProgress) {
            return Err(ErrorCode::InvalidExecutionStatus);
        }
        if let Some(ref h) = outputs_hash {
            if h.len() > MAX_HASH_LEN {
                return Err(ErrorCode::HashTooLong);
            }
        }
        let event_task_id = clone_bytes(&self.executions[execution_index].1.task_id);
        let (entry_address, mut execution) = self.executions.remove(execution_index);
        execution.status = status;
        if let Some(h) = outputs_hash {
            execution.outputs_hash = h;
        }
        if status.is_terminal() {
            execution.completed_at = now;
        }
        self.executions.insert(execution_index, (entry_address, execution));
        proof {
            let s0 = old(self).executions@;
            let mapped = s0.map_values(
                |entry: (Pubkey, ExecutionAccount)|
                    spec_transition_execution(entry, execution_address, status, outputs_hash, now),
            );
            assert forall|j: int| 0 <= j < s0.len() implies self.executions@[j] == mapped[j] by {
                if j != execution_index as int {
                    assert(s0[j].0 != execution_address);
                }
            }
            assert(self.executions@ =~= mapped);
        }
        Ok(ExecutionUpdatedEvent { task_id: event_task_id, status, timestamp: now })
    }

    /// Why `update_template` with these inputs fails, if it does.
    pub open spec fn spec_update_template_err(
        self,
        template_address: Pubkey,
        caller: Pubkey,
        template_name: Option<Vec<u8>>,
        template_version: Option<Vec<u8>>,
        metadata: Option<Vec<u8>>,
    ) -> Option<ErrorCode> {
        spec_update_template_table_err(
            self.templates@,
            template_address,
            caller,
            template_name,
            template_version,
            metadata,
        )
    }

    /// Rewrites the provided descriptive fields of the template at
    /// `template_address` and refreshes its update time; absent fields are
    /// untouched, and the usage counter never changes here. Only the
    /// record's creator may update it. All provided fields are validated
    /// before anything is written.
    pub fn update_template(
        &mut self,
        template_address: Pubkey,
        caller: Pubkey,
        template_name: Option<Vec<u8>>,
        template_version: Option<Vec<u8>>,
        metadata: Option<Vec<u8>>,
        is_active: Option<bool>,
        now: i64,
    ) -> (r: Result<TemplateUpdatedEvent, ErrorCode>)
        requires
            old(self).wf(),
            now > 0,
            old(self).clock_in_order(now),
        ensures
            final(self).wf(),
            final(self).executions@ == old(self).executions@,
            match old(self).spec_update_template_err(
                template_address,
                caller,
                template_name,
                template_version,
                metadata,
            ) {
                Some(code) => r == Err::<TemplateUpdatedEvent, ErrorCode>(code) && *final(self)
                    == *old(self),
                None => {
                    &&& final(self).templates@ == old(self).templates@.map_values(
                        |entry: (Pubkey, TemplateAccount)|
                            spec_rewrite_template(
                                entry,
                                template_address,
                                template_name,
                                template_version,
                                metadata,
                                is_active,
                                now,
                            ),
                    )
                    &&& r matches Ok(ev) && ev.template_id@ == value_at(
                        old(self).templates@,
                        template_address,
                    ).template_id@ && ev.updater == caller && ev.timestamp == now
                },
            },
    {
        let template_index = match find_key_index(&self.templates, template_address) {
            Some(i) => i,
            None => {
                return Err(ErrorCode::AccountNotFound);
            },
        };
        proof {
            lemma_value_at(self.templates@, template_address, template_index as int);
        }
        if !(self.templates[template_index].1.creator == caller) {
            return Err(ErrorCode::Unauthorized);
        }
        if let Some(ref n) = template_name {
            if n.len() > MAX_TEMPLATE_NAME_LEN {
                return Err(ErrorCode::NameTooLong);
            }
        }
        if let Some(ref v) = template_version {
            if v.len() > MAX_TEMPLATE_VERSION_LEN {
                return Err(ErrorCode::VersionTooLong);
            }
        }
        if let Some(ref m) = metadata {
            if m.len() > MAX_METADATA_LEN {
                return Err(ErrorCode::MetadataTooLarge);
            }
        }
        let event_template_id = clone_bytes(&self.templates[template_index].1.template_id);
        let (entry_address, mut template) = self.templates.remove(template_index);
        if let Some(n) = template_name {
            template.template_name = n;
        }
        if let Some(v) = template_version {
            template.template_version = v;
        }
        if let Some(m) = metadata {
            template.metadata = m;
        }
        if let Some(active) = is_active {
            template.is_active = active;
        }
        template.updated_at = now;
        self.templates.insert(template_index, (entry_address, template));
        proof {
            let s0 = old(self).templates@;
            let mapped = s0.map_values(
                |entry: (Pubkey, TemplateAccount)|
                    spec_rewrite_template(
                        entry,
                        template_address,
                        template_name,
                        template_version,
                        metadata,
                        is_active,
                        now,
                    ),
            );
            assert forall|j: int| 0 <= j < s0.len() implies self.templates@[j] == mapped[j] by {
                if j != template_index as int {
                    assert(s0[j].0 != template_address);
                }
            }
            assert(self.templates@ =~= mapped);
        }
        Ok(TemplateUpdatedEvent { template_id: event_template_id, updater: caller, timestamp: now })
    }
}

/// The execution entry as it stands after the transition to `status` at
/// time `now` with the optionally provided digest; entries under other keys
/// are untouched.
pub open spec fn spec_transition_execution(
    entry: (Pubkey, ExecutionAccount),
    a: Pubkey,
    status: ExecutionStatus,
    outputs_hash: Option<Vec<u8>>,
    now: i64,
) -> (Pubkey, ExecutionAccount) {
    if entry.0 == a {
        (
            entry.0,
            ExecutionAccount {
                task_id: entry.1.task_id,
                template: entry.1.template,
                user: entry.1.user,
                inputs_hash: entry.1.inputs_hash,
                outputs_hash: match outputs_hash {
                    Some(h) => h,
                    None => entry.1.outputs_hash,
                },
                status,
                started_at: entry.1.started_at,
                completed_at: if status.spec_is_terminal() {
                    now
                } else {
                    entry.1.completed_at
                },
                bumps: entry.1.bumps,
            },
        )
    } else {
        entry
    }
}

/// Why `initialize_template` on a table of templates fails, if it does:
/// validation first, field by field in declaration order, then address
/// derivation, then the occupancy check.
pub open spec fn spec_init_template_table_err(
    templates: Seq<(Pubkey, TemplateAccount)>,
    template_id: Seq<u8>,
    template_name: Seq<u8>,
    template_version: Seq<u8>,
    category: Seq<u8>,
    creator: Pubkey,
    metadata: Seq<u8>,
) -> Option<ErrorCode> {
    if template_id.len() > MAX_TEMPLATE_ID_LEN as int {
        Some(ErrorCode::TemplateTooLong)
    } else if template_name.len() > MAX_TEMPLATE_NAME_LEN as int {
        Some(ErrorCode::NameTooLong)
    } else if template_version.len() > MAX_TEMPLATE_VERSION_LEN as int {
        Some(ErrorCode::VersionTooLong)
    } else if category.len() > MAX_CATEGORY_LEN as int {
        Some(ErrorCode::CategoryTooLong)
    } else if metadata.len() > MAX_METADATA_LEN as int {
        Some(ErrorCode::MetadataTooLarge)
    } else if spec_derive(TEMPLATE_TAG, template_id, creator) is None {
        Some(ErrorCode::AddressDerivationExhausted)
    } else if has_key(templates, spec_derive(TEMPLATE_TAG, template_id, creator).unwrap().0) {
        Some(ErrorCode::AlreadyExists)
    } else {
        None
    }
}

/// Why `record_execution` on the two tables fails, if it does: validation,
/// address derivation, occupancy, existence of the referenced template,
/// then room in its usage counter.
pub open spec fn spec_record_execution_table_err(
    templates: Seq<(Pubkey, TemplateAccount)>,
    executions: Seq<(Pubkey, ExecutionAccount)>,
    task_id: Seq<u8>,
    inputs_hash: Seq<u8>,
    outputs_hash: Seq<u8>,
    template_address: Pubkey,
    user: Pubkey,
) -> Option<ErrorCode> {
    if task_id.len() > MAX_TASK_ID_LEN as int {
        Some(ErrorCode::TaskIdTooLong)
    } else if inputs_hash.len() > MAX_HASH_LEN as int {
        Some(ErrorCode::HashTooLong)
    } else if outputs_hash.len() > MAX_HASH_LEN as int {
        Some(ErrorCode::HashTooLong)
    } else if spec_derive(EXECUTION_TAG, task_id, user) is None {
        Some(ErrorCode::AddressDerivationExhausted)
    } else if has_key(executions, spec_derive(EXECUTION_TAG, task_id, user).unwrap().0) {
        Some(ErrorCode::AlreadyExists)
    } else if !has_key(templates, template_address) {
        Some(ErrorCode::AccountNotFound)
    } else if value_at(templates, template_address).usage_count == u64::MAX {
        Some(ErrorCode::NumericOverflow)
    } else {
        None
    }
}

/// Why `update_execution` on a table of executions fails, if it does: the
/// record must exist, the caller must be its user, the current status must
/// still permit a transition, and a provided digest must fit.
pub open spec fn spec_update_execution_table_err(
    executions: Seq<(Pubkey, ExecutionAccount)>,
    execution_address: Pubkey,
    caller: Pubkey,
    outputs_hash: Option<Vec<u8>>,
) -> Option<ErrorCode> {
    if !has_key(executions, execution_address) {
        Some(ErrorCode::AccountNotFound)
    } else if value_at(executions, execution_address).user != caller {
        Some(ErrorCode::Unauthorized)
    } else if value_at(executions, execution_address).status != ExecutionStatus::InProgress {
        Some(ErrorCode::InvalidExecutionStatus)
    } else if outputs_hash matches Some(h) && h@.len() > MAX_HASH_LEN as int {
        Some(ErrorCode::HashTooLong)
    } else {
        None
    }
}

/// Why `update_template` on a table of templates fails, if it does: the
/// record must exist, the caller must be its creator, and every provided
/// field must fit its bound.
pub open spec fn spec_update_template_table_err(
    templates: Seq<(Pubkey, TemplateAccount)>,
    template_address: Pubkey,
    caller: Pubkey,
    template_name: Option<Vec<u8>>,
    template_version: Option<Vec<u8>>,
    metadata: Option<Vec<u8>>,
) -> Option<ErrorCode> {
    if !has_key(templates, template_address) {
        Some(ErrorCode::AccountNotFound)
    } else if value_at(templates, template_address).creator != caller {
        Some(ErrorCode::Unauthorized)
    } else if template_name matches Some(n) && n@.len() > MAX_TEMPLATE_NAME_LEN as int {
        Some(ErrorCode::NameTooLong)
    } else if template_version matches Some(v) && v@.len() > MAX_TEMPLATE_VERSION_LEN as int {
        Some(ErrorCode::VersionTooLong)
    } else if metadata matches Some(m) && m@.len() > MAX_METADATA_LEN as int {
        Some(ErrorCode::MetadataTooLarge)
    } else {
        None
    }
}

/// The template entry as it stands after its descriptive fields were
/// rewritten at time `now`; absent fields and the usage counter are
/// untouched, and entries under other keys too.
pub open spec fn spec_rewrite_template(
    entry: (Pubkey, TemplateAccount),
    a: Pubkey,
    template_name: Option<Vec<u8>>,
    template_version: Option<Vec<u8>>,
    metadata: Option<Vec<u8>>,
    is_active: Option<bool>,
    now: i64,
) -> (Pubkey, TemplateAccount) {
    if entry.0 == a {
        (
            entry.0,
            TemplateAccount {
                template_id: entry.1.template_id,
                template_name: match template_name {
                    Some(n) => n,
                    None => entry.1.template_name,
                },
                template_version: match template_version {
                    Some(v) => v,
                    None => entry.1.template_version,
                },
                category: entry.1.category,
                creator: entry.1.creator,
                metadata: match metadata {
                    Some(m) => m,
                    None => entry.1.metadata,
                },
                created_at: entry.1.created_at,
                updated_at: now,
                usage_count: entry.1.usage_count,
                is_active: match is_active {
                    Some(b) => b,
                    None => entry.1.is_active,
                },
                bumps: entry.1.bumps,
            },
        )
    } else {
        entry
    }
}


/// One requested registry operation, as the registry state machine sees
/// it.
pub enum McpOp {
    InitTemplate {
        template_id: Vec<u8>,
        template_name: Vec<u8>,
        template_version: Vec<u8>,
        category: Vec<u8>,
        creator: Pubkey,
        metadata: Vec<u8>,
        now: i64,
    },
    RecordExecution {
        task_id: Vec<u8>,
        inputs_hash: Vec<u8>,
        outputs_hash: Vec<u8>,
        status: ExecutionStatus,
        template_address: Pubkey,
        user: Pubkey,
        now: i64,
    },
    UpdateExecution {
        execution_address: Pubkey,
        caller: Pubkey,
        status: ExecutionStatus,
        outputs_hash: Option<Vec<u8>>,
        now: i64,
    },
    UpdateTemplate {
        template_address: Pubkey,
        caller: Pubkey,
        template_name: Option<Vec<u8>>,
        template_version: Option<Vec<u8>>,
        metadata: Option<Vec<u8>>,
        is_active: Option<bool>,
        now: i64,
    },
}

/// The two tables as they stand after `op`: unchanged when the operation
/// fails, else with exactly the transition the operation owns applied.
pub open spec fn spec_mcp_step(
    templates: Seq<(Pubkey, TemplateAccount)>,
    executions: Seq<(Pubkey, ExecutionAccount)>,
    op: McpOp,
) -> (Seq<(Pubkey, TemplateAccount)>, Seq<(Pubkey, ExecutionAccount)>) {
    match op {
        McpOp::InitTemplate {
            template_id,
            template_name,
            template_version,
            category,
            creator,
            metadata,
            now,
        } => {
            if spec_init_template_table_err(
                templates,
                template_id@,
                template_name@,
                template_version@,
                category@,
                creator,
                metadata@,
            ) is Some {
                (templates, executions)
            } else {
                let (address, bump) = spec_derive(TEMPLATE_TAG, template_id@, creator).unwrap();
                (
                    templates.push(
                        (
                            address,
                            (TemplateAccount {
                                template_id,
                                template_name,
                                template_version,
                                category,
                                creator,
                                metadata,
                                created_at: now,
                                updated_at: now,
                                usage_count: 0,
                                is_active: true,
                                bumps: TemplateBumps { template: bump },
                            }),
                        ),
                    ),
                    executions,
                )
            }
        },
        McpOp::RecordExecution {
            task_id,
            inputs_hash,
            outputs_hash,
            status,
            template_address,
            user,
            now,
        } => {
            if spec_record_execution_table_err(
                templates,
                executions,
                task_id@,
                inputs_hash@,
                outputs_hash@,
                template_address,
                user,
            ) is Some {
                (templates, executions)
            } else {
                let (execution_address, bump) = spec_derive(
                    EXECUTION_TAG,
                    task_id@,
                    user,
                ).unwrap();
                (
                    templates.map_values(
                        |entry: (Pubkey, TemplateAccount)|
                            spec_touch_usage(entry, template_address, now),
                    ),
                    executions.push(
                        (
                            execution_address,
                            (ExecutionAccount {
                                task_id,
                                template: template_address,
                                user,
                                inputs_hash,
                                outputs_hash,
                                status,
                                started_at: now,
                                completed_at: if status.spec_is_terminal() {
                                    now
                                } else {
                                    0
                                },
                                bumps: ExecutionBumps { execution: bump },
                            }),
                        ),
                    ),
                )
            }
        },
        McpOp::UpdateExecution { execution_address, caller, status, outputs_hash, now } => {
            if spec_update_execution_table_err(
                executions,
                execution_address,
                caller,
                outputs_hash,
            ) is Some {
                (templates, executions)
            } else {
                (
                    templates,
                    executions.map_values(
                        |entry: (Pubkey, ExecutionAccount)|
                            spec_transition_execution(
                                entry,
                                execution_address,
                                status,
                                outputs_hash,
                                now,
                            ),
                    ),
                )
            }
        },
        McpOp::UpdateTemplate {
            template_address,
            caller,
            template_name,
            template_version,
            metadata,
            is_active,
            now,
        } => {
            if spec_update_template_table_err(
                templates,
                template_address,
                caller,
                template_name,
                template_version,
                metadata,
            ) is Some {
                (templates, executions)
            } else {
                (
                    templates.map_values(
                        |entry: (Pubkey, TemplateAccount)|
                            spec_rewrite_template(
                                entry,
                                template_address,
                                template_name,
                                template_version,
                                metadata,
                                is_active,
                                now,
                            ),
                    ),
                    executions,
                )
            }
        },
    }
}

/// The two tables as they stand after a whole sequence of requested
/// operations, applied in order.
pub open spec fn spec_apply_mcp_ops(
    templates: Seq<(Pubkey, TemplateAccount)>,
    executions: Seq<(Pubkey, ExecutionAccount)>,
    ops: Seq<McpOp>,
) -> (Seq<(Pubkey, TemplateAccount)>, Seq<(Pubkey, ExecutionAccount)>)
    decreases ops.len(),
{
    if ops.len() == 0 {
        (templates, executions)
    } else {
        let prefix = spec_apply_mcp_ops(templates, executions, ops.drop_last());
        spec_mcp_step(prefix.0, prefix.1, ops.last())
    }
}

/// How many operations of the sequence are successful execution recordings
/// against the template at address `a`, each judged in the state it finds.
pub open spec fn spec_creations_for(
    templates: Seq<(Pubkey, TemplateAccount)>,
    executions: Seq<(Pubkey, ExecutionAccount)>,
    ops: Seq<McpOp>,
    a: Pubkey,
) -> nat
    decreases ops.len(),
{
    if ops.len() == 0 {
        0
    } else {
        let prefix = spec_apply_mcp_ops(templates, executions, ops.drop_last());
        spec_creations_for(templates, executions, ops.drop_last(), a) + match ops.last() {
            McpOp::RecordExecution {
                task_id,
                inputs_hash,
                outputs_hash,
                status: _,
                template_address,
                user,
                now: _,
            } => {
                if template_address == a && spec_record_execution_table_err(
                    prefix.0,
                    prefix.1,
                    task_id@,
                    inputs_hash@,
                    outputs_hash@,
                    template_address,
                    user,
                ) is None {
                    1nat
                } else {
                    0nat
                }
            },
            _ => 0nat,
        }
    }
}

/// Across every sequence of registry operations, a template's usage
/// counter grows by exactly the number of successful execution recordings
/// that reference it, and by nothing else: no other operation, successful
/// or not, moves it.
#[verifier::rlimit(50)]
pub proof fn lemma_usage_count_tracks_creations(
    templates: Seq<(Pubkey, TemplateAccount)>,
    executions: Seq<(Pubkey, ExecutionAccount)>,
    ops: Seq<McpOp>,
    j: int,
)
    requires
        keys_unique(templates),
        0 <= j < templates.len(),
    ensures
        ({
            let after = spec_apply_mcp_ops(templates, executions, ops);
            &&& keys_unique(after.0)
            &&& j < after.0.len()
            &&& after.0[j].0 == templates[j].0
            &&& after.0[j].1.usage_count == templates[j].1.usage_count + spec_creations_for(
                templates,
                executions,
                ops,
                templates[j].0,
            )
        }),
    decreases ops.len(),
{
    if ops.len() > 0 {
        let prefix_ops = ops.drop_last();
        lemma_usage_count_tracks_creations(templates, executions, prefix_ops, j);
        let prefix = spec_apply_mcp_ops(templates, executions, prefix_ops);
        let after = spec_apply_mcp_ops(templates, executions, ops);
        let a = templates[j].0;
        assert(after == spec_mcp_step(prefix.0, prefix.1, ops.last()));
        match ops.last() {
            McpOp::InitTemplate {
                template_id,
                template_name,
                template_version,
                category,
                creator,
                metadata,
                now: _,
            } => {
                if spec_init_template_table_err(
                    prefix.0,
                    template_id@,
                    template_name@,
                    template_version@,
                    category@,
                    creator,
                    metadata@,
                ) is None {
                    let address = spec_derive(TEMPLATE_TAG, template_id@, creator).unwrap().0;
                    assert(after.0[j] == prefix.0[j]);
                    assert forall|x: int, y: int|
                        0 <= x < y < after.0.len() implies after.0[x].0 != after.0[y].0 by {
                        if y < prefix.0.len() as int {
                            assert(prefix.0[x].0 != prefix.0[y].0);
                        } else {
                            assert(after.0[x] == prefix.0[x]);
                            if prefix.0[x].0 == address {
                                assert(has_key(prefix.0, address));
                            }
                        }
                    }
                }
            },
            McpOp::RecordExecution {
                task_id,
                inputs_hash,
                outputs_hash,
                status: _,
                template_address,
                user,
                now,
            } => {
                if spec_record_execution_table_err(
                    prefix.0,
                    prefix.1,
                    task_id@,
                    inputs_hash@,
                    outputs_hash@,
                    template_address,
                    user,
                ) is None {
                    assert(after.0[j] == spec_touch_usage(prefix.0[j], template_address, now));
                    if template_address == a {
                        lemma_value_at(prefix.0, a, j);
                        assert(prefix.0[j].1.usage_count != u64::MAX);
                    }
                    assert forall|x: int, y: int|
                        0 <= x < y < after.0.len() implies after.0[x].0 != after.0[y].0 by {
                        assert(after.0[x].0 == prefix.0[x].0);
                        assert(after.0[y].0 == prefix.0[y].0);
                    }
                }
            },
            McpOp::UpdateExecution { .. } => {
                assert(after.0 == prefix.0);
            },
            McpOp::UpdateTemplate {
                template_address,
                caller,
                template_name,
                template_version,
                metadata,
                is_active,
                now,
            } => {
                if spec_update_template_table_err(
                    prefix.0,
                    template_address,
                    caller,
                    template_name,
                    template_version,
                    metadata,
                ) is None {
                    assert(after.0[j] == spec_rewrite_template(
                        prefix.0[j],
                        template_address,
                        template_name,
                        template_version,
                        metadata,
                        is_active,
                        now,
                    ));
                    assert forall|x: int, y: int|
                        0 <= x < y < after.0.len() implies after.0[x].0 != after.0[y].0 by {
                        assert(after.0[x].0 == prefix.0[x].0);
                        assert(after.0[y].0 == prefix.0[y].0);
                    }
                }
            },
        }
    }
}

/// In every well-formed registry an execution is in progress exactly while
/// its completion time is zero.
pub proof fn lemma_in_progress_iff_incomplete(registry: McpRegistry, i: int)
    requires
        registry.wf(),
        0 <= i < registry.executions@.len(),
    ensures
        registry.executions@[i].1.status == ExecutionStatus::InProgress
            <==> registry.executions@[i].1.completed_at == 0,
{
}

/// An execution whose status left `InProgress` can never be updated again:
/// whoever calls, with whatever digest, the update is refused as an
/// invalid transition, and the registry's contracts then leave the state
/// untouched.
pub proof fn lemma_terminal_execution_rejects_update(
    executions: Seq<(Pubkey, ExecutionAccount)>,
    execution_address: Pubkey,
    caller: Pubkey,
    outputs_hash: Option<Vec<u8>>,
)
    requires
        has_key(executions, execution_address),
        value_at(executions, execution_address).user == caller,
        value_at(executions, execution_address).status != ExecutionStatus::InProgress,
    ensures
        spec_update_execution_table_err(executions, execution_address, caller, outputs_hash)
            == Some(ErrorCode::InvalidExecutionStatus),
{
}

} // verus!
