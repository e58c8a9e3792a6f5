//! The contract interface of the execution engine, and the values that cross it.

use vstd::prelude::*;

use crate::account::AccountId;

verus! {

/// Computational weight: execution time and proof size.
#[derive(Clone, Copy, Debug, PartialEq, Eq, Structural)]
pub struct Weight {
    pub ref_time: u64,
    pub proof_size: u64,
}

impl Weight {
    /// The weight of doing nothing.
    pub open spec fn spec_zero() -> Weight {
        Weight { ref_time: 0, proof_size: 0 }
    }

    /// The weight of doing nothing.
    #[verifier::when_used_as_spec(spec_zero)]
    pub fn zero() -> (w: Weight)
        ensures
            w == Weight::spec_zero(),
    {
        Weight { ref_time: 0, proof_size: 0 }
    }

    /// A weight from its two parts.
    pub fn from_parts(ref_time: u64, proof_size: u64) -> (w: Weight)
        ensures
            w == (Weight { ref_time, proof_size }),
    {
        Weight { ref_time, proof_size }
    }
}

/// Execution time that a call made by the sandbox itself is allowed.
pub const DEFAULT_GAS_REF_TIME: u64 = 100_000_000_000;

/// Proof size that a call made by the sandbox itself is allowed.
pub const DEFAULT_GAS_PROOF_SIZE: u64 = 3 * 1024 * 1024;

/// The weight limit of the calls that the sandbox makes on its own behalf.
pub open spec fn spec_default_gas_limit() -> Weight {
    Weight { ref_time: DEFAULT_GAS_REF_TIME, proof_size: DEFAULT_GAS_PROOF_SIZE }
}

/// The weight limit of the calls that the sandbox makes on its own behalf.
#[verifier::when_used_as_spec(spec_default_gas_limit)]
pub fn default_gas_limit() -> (w: Weight)
    ensures
        w == spec_default_gas_limit(),
{
    Weight { ref_time: DEFAULT_GAS_REF_TIME, proof_size: DEFAULT_GAS_PROOF_SIZE }
}

/// Whether the engine insists on bit-exact, platform-independent execution.
#[derive(Clone, Copy, Debug, PartialEq, Eq, Structural)]
pub enum Determinism {
    Enforced,
    Relaxed,
}

/// Balance moved on account of storage during one operation.
#[derive(Clone, Copy, Debug, PartialEq, Eq, Structural)]
pub enum StorageDeposit {
    /// Storage shrank: this much went back to the origin.
    Refund(u128),
    /// Storage grew: this much was taken from the origin.
    Charge(u128),
}

/// The bit of [`ReturnFlags`] that marks a revert.
pub const REVERT_FLAG: u32 = 1;

/// Flags with which an execution ends.
#[derive(Clone, Copy, Debug, PartialEq, Eq, Structural)]
pub struct ReturnFlags {
    pub bits: u32,
}

impl ReturnFlags {
    /// Whether the revert bit is set.
    pub open spec fn spec_is_revert(&self) -> bool {
        self.bits & REVERT_FLAG == REVERT_FLAG
    }

    /// No flag set.
    pub fn empty() -> (flags: ReturnFlags)
        ensures
            flags.bits == 0,
            !flags.spec_is_revert(),
    {
        assert(0u32 & 1u32 != 1u32) by (bit_vector);
        ReturnFlags { bits: 0 }
    }

    /// Only the revert bit set.
    pub fn revert() -> (flags: ReturnFlags)
        ensures
            flags.bits == REVERT_FLAG,
            flags.spec_is_revert(),
    {
        assert(1u32 & 1u32 == 1u32) by (bit_vector);
        ReturnFlags { bits: REVERT_FLAG }
    }

    /// Whether the revert bit is set.
    #[verifier::when_used_as_spec(spec_is_revert)]
    pub fn is_revert(&self) -> (set: bool)
        ensures
            set == self.spec_is_revert(),
    {
        self.bits & REVERT_FLAG == REVERT_FLAG
    }
}

/// What an execution that ran to completion hands back.
#[derive(Clone, Debug, PartialEq, Eq)]
pub struct ExecReturnValue {
    pub flags: ReturnFlags,
    pub data: Vec<u8>,
}

impl ExecReturnValue {
    /// Whether the execution rolled its changes back.
    pub open spec fn spec_did_revert(&self) -> bool {
        self.flags.spec_is_revert()
    }

    /// Whether the execution rolled its changes back.
    #[verifier::when_used_as_spec(spec_did_revert)]
    pub fn did_revert(&self) -> (reverted: bool)
        ensures
            reverted == self.spec_did_revert(),
    {
        self.flags.is_revert()
    }
}

/// What a successful instantiation hands back.
#[derive(Clone, Debug, PartialEq, Eq)]
pub struct InstantiateReturnValue {
    /// What the constructor returned.
    pub result: ExecReturnValue,
    /// Where the new contract lives.
    pub account_id: AccountId,
}

/// What a successful code upload hands back.
#[derive(Clone, Debug, PartialEq, Eq)]
pub struct CodeUploadReturnValue {
    /// The key under which the engine keeps the code.
    pub code_hash: Vec<u8>,
    /// The deposit taken for it; zero when the code was already there.
    pub deposit: u128,
}

/// A failure inside the engine. The sandbox hands these on as it got them.
#[derive(Clone, Debug, PartialEq, Eq)]
pub enum EngineError {
    /// No code is stored under the given hash.
    UnknownCodeHash,
    /// The code exceeds what the engine accepts.
    CodeTooLarge,
    /// The contract ran into a trap.
    ContractTrapped,
    /// The weight limit was used up.
    OutOfGas,
    /// The storage deposit limit was used up.
    StorageDepositLimitExhausted,
    /// The origin could not pay the transferred value.
    TransferFailed,
    /// Any other failure, in the engine's own encoding.
    Other(Vec<u8>),
}

/// Something the engine recorded while it ran.
#[derive(Clone, Debug, PartialEq, Eq)]
pub enum Event {
    /// A contract was created.
    Instantiated { deployer: AccountId, contract: AccountId },
    /// A contract was called and ran to a successful end.
    Called { caller: AccountId, contract: AccountId },
    /// A contract emitted data of its own.
    ContractEmitted { contract: AccountId, data: Vec<u8> },
    /// Any other record, in the engine's own encoding.
    Other(Vec<u8>),
}

/// The result of a call or of an instantiation, with what it cost.
#[derive(Clone, Debug, PartialEq, Eq)]
pub struct ContractResult<R> {
    /// The weight that the execution used.
    pub gas_consumed: Weight,
    /// The weight limit that the execution needs.
    pub gas_required: Weight,
    /// What was paid for storage, or given back.
    pub storage_deposit: StorageDeposit,
    /// The debug buffer that the execution filled.
    pub debug_message: Vec<u8>,
    /// What the execution returned, or why the engine refused.
    pub result: R,
    /// The events recorded during the execution, in the engine's order, when it collects them.
    pub events: Option<Vec<Event>>,
}

/// The result of calling a contract.
pub type ContractExecResult = ContractResult<Result<ExecReturnValue, EngineError>>;

/// The result of instantiating a contract.
pub type ContractInstantiateResult = ContractResult<Result<InstantiateReturnValue, EngineError>>;

/// The result of uploading code.
pub type CodeUploadResult = Result<CodeUploadReturnValue, EngineError>;

/// Number of bytes in a code hash.
pub const CODE_HASH_LEN: usize = 32;

/// Whether `bytes` start with a complete code hash.
pub open spec fn holds_code_hash(bytes: Seq<u8>) -> bool {
    bytes.len() >= CODE_HASH_LEN
}

/// The four operations that the execution engine offers on contracts.
///
/// Every operation names its origin and its limits. Nothing is promised of a result
/// here: it is the engine's to give, and the sandbox hands it on as it came.
pub trait ContractApi {
    /// Uploads `contract_bytes` and instantiates them in one step.
    ///
    /// The engine derives the new address from the code, the salt and the origin.
    fn deploy_contract(
        &mut self,
        contract_bytes: Vec<u8>,
        value: u128,
        data: Vec<u8>,
        salt: Vec<u8>,
        origin: AccountId,
        gas_limit: Weight,
        storage_deposit_limit: Option<u128>,
    ) -> ContractInstantiateResult;

    /// Instantiates code that was uploaded before, found by its hash.
    ///
    /// What an engine does with bytes that hold no code hash is its own to say: a
    /// session refuses them before it asks.
    fn instantiate_contract(
        &mut self,
        code_hash: Vec<u8>,
        value: u128,
        data: Vec<u8>,
        salt: Vec<u8>,
        origin: AccountId,
        gas_limit: Weight,
        storage_deposit_limit: Option<u128>,
    ) -> ContractInstantiateResult;

    /// Stores `contract_bytes` without instantiating them.
    fn upload_contract(
        &mut self,
        contract_bytes: Vec<u8>,
        origin: AccountId,
        storage_deposit_limit: Option<u128>,
        determinism: Determinism,
    ) -> CodeUploadResult;

    /// Calls the contract at `address`.
    fn call_contract(
        &mut self,
        address: AccountId,
        value: u128,
        data: Vec<u8>,
        origin: AccountId,
        gas_limit: Weight,
        storage_deposit_limit: Option<u128>,
        determinism: Determinism,
    ) -> ContractExecResult;
}

/// The byte that ends a line of the debug buffer.
pub const LINE_FEED: u8 = 10;

/// Number of bytes of `bytes` that stand before its first line feed.
pub open spec fn line_len(bytes: Seq<u8>) -> nat
    decreases bytes.len(),
{
    if bytes.len() == 0 || bytes[0] == LINE_FEED {
        0
    } else {
        1 + line_len(bytes.drop_first())
    }
}

/// Each byte read as the character with that code.
pub open spec fn as_chars(bytes: Seq<u8>) -> Seq<char> {
    Seq::new(bytes.len(), |i: int| bytes[i] as char)
}

/// The lines of `bytes`: the runs between line feeds, in order, without the empty ones.
pub open spec fn debug_lines(bytes: Seq<u8>) -> Seq<Seq<char>>
    decreases bytes.len(),
{
    if bytes.len() == 0 {
        Seq::empty()
    } else {
        let n = line_len(bytes);
        let rest = if n < bytes.len() {
            debug_lines(bytes.skip(n as int + 1))
        } else {
            Seq::empty()
        };
        if n == 0 {
            rest
        } else {
            seq![as_chars(bytes.take(n as int))] + rest
        }
    }
}

/// The contents of each string of `lines`.
pub open spec fn contents(lines: Seq<String>) -> Seq<Seq<char>> {
    Seq::new(lines.len(), |i: int| lines[i]@)
}

/// The first line of `bytes` lies within `bytes` and holds no line feed.
pub proof fn lemma_first_line_has_no_feed(bytes: Seq<u8>, k: int)
    requires
        0 <= k < line_len(bytes),
    ensures
        k < bytes.len(),
        bytes[k] != LINE_FEED,
    decreases bytes.len(),
{
    if k > 0 {
        lemma_first_line_has_no_feed(bytes.drop_first(), k - 1);
    }
}

/// Every line of the debug buffer holds at least one character and no line feed.
pub proof fn lemma_debug_lines_are_whole(bytes: Seq<u8>, i: int)
    requires
        0 <= i < debug_lines(bytes).len(),
    ensures
        debug_lines(bytes)[i].len() > 0,
        forall|k: int|
            0 <= k < debug_lines(bytes)[i].len() ==> debug_lines(bytes)[i][k] != LINE_FEED as char,
    decreases bytes.len(),
{
    let n = line_len(bytes);
    if n > 0 {
        lemma_first_line_has_no_feed(bytes, n - 1);
    }
    if n > 0 && i == 0 {
        let line = bytes.take(n as int);
        assert forall|k: int| 0 <= k < n implies as_chars(line)[k] != LINE_FEED as char by {
            lemma_first_line_has_no_feed(bytes, k);
        }
    } else {
        let rest = bytes.skip(n as int + 1);
        lemma_debug_lines_are_whole(rest, if n > 0 { i - 1 } else { i });
    }
}

/// A run of `n` bytes without a line feed, ended by one or by the end of `bytes`,
/// is the first line.
pub proof fn lemma_line_len_is(bytes: Seq<u8>, n: nat)
    requires
        n <= bytes.len(),
        forall|k: int| 0 <= k < n ==> bytes[k] != LINE_FEED,
        n == bytes.len() || bytes[n as int] == LINE_FEED,
    ensures
        line_len(bytes) == n,
    decreases n,
{
    if n != 0 {
        let tail = bytes.drop_first();
        assert forall|k: int| 0 <= k < n - 1 implies tail[k] != LINE_FEED by {
            assert(tail[k] == bytes[k + 1]);
        }
        lemma_line_len_is(tail, (n - 1) as nat);
    }
}

/// `String::push`: appends one character to the end of the string.
#[verifier::external_body]
fn push_char(text: &mut String, c: char)
    ensures
        final(text)@ == old(text)@.push(c),
{
    text.push(c)
}

/// Converts bytes to a '\n'-split string, ignoring empty lines.
///
/// Every byte stands for the character with its code.
pub fn decode_debug_buffer(buffer: &[u8]) -> (lines: Vec<String>)
    ensures
        contents(lines@) == debug_lines(buffer@),
{
    let mut lines: Vec<String> = Vec::new();
    let mut current = String::new();
    let mut start: usize = 0;
    let mut i: usize = 0;
    proof {
        assert(buffer@.skip(0) =~= buffer@);
        assert(contents(lines@) =~= Seq::<Seq<char>>::empty());
        assert(current@ =~= as_chars(buffer@.subrange(0, 0)));
    }
    while i < buffer.len()
        invariant
            start <= i <= buffer.len(),
            forall|k: int| start <= k < i ==> buffer@[k] != LINE_FEED,
            current@ == as_chars(buffer@.subrange(start as int, i as int)),
            debug_lines(buffer@) == contents(lines@) + debug_lines(buffer@.skip(start as int)),
        decreases buffer.len() - i,
    {
        let byte = buffer[i];
        if byte == LINE_FEED {
            let ghost tail = buffer@.skip(start as int);
            let ghost n = (i - start) as nat;
            let ghost before = contents(lines@);
            proof {
                lemma_line_len_is(tail, n);
                assert(tail.skip(n as int + 1) =~= buffer@.skip(i + 1));
                assert(tail.take(n as int) =~= buffer@.subrange(start as int, i as int));
            }
            if i > start {
                lines.push(current);
                current = String::new();
                proof {
                    assert(contents(lines@) =~= before + seq![as_chars(tail.take(n as int))]);
                }
            }
            start = i + 1;
            proof {
                assert(current@ =~= as_chars(buffer@.subrange(start as int, start as int)));
            }
        } else {
            push_char(&mut current, byte as char);
            proof {
                assert(current@ =~= as_chars(buffer@.subrange(start as int, i + 1)));
            }
        }
        i = i + 1;
    }
    let ghost tail = buffer@.skip(start as int);
    let ghost before = contents(lines@);
    proof {
        lemma_line_len_is(tail, (i - start) as nat);
        assert(tail.take((i - start) as int) =~= buffer@.subrange(start as int, i as int));
    }
    if i > start {
        lines.push(current);
        proof {
            assert(contents(lines@) =~= before + seq![as_chars(tail.take((i - start) as int))]);
        }
    }
    lines
}

} // verus!
