//! The client side of the Sedna protocol: how the C driver's return codes are
//! read, which errors they become, and how a result item is assembled from
//! the chunks the driver hands out.
use vstd::prelude::*;
use vstd::slice::slice_to_vec;
use vstd::string::StringSliceAdditionalSpecFns;
use vstd::utf8::{decode_utf8, valid_utf8};

use crate::config::DEFAULT_PORT;
use crate::error::{SednaError, SednaErrorView};
use crate::text::{
    decimal, decode_lossy, lemma_decimal_injective, lemma_decimal_is_digits, push_decimal,
    push_signed_decimal, signed_decimal, utf8_lossy,
};

verus! {

pub const SEDNA_SESSION_OPEN: i32 = 1;
pub const SEDNA_SESSION_CLOSED: i32 = 2;
pub const SEDNA_AUTHENTICATION_FAILED: i32 = -3;
pub const SEDNA_QUERY_SUCCEEDED: i32 = 6;
pub const SEDNA_QUERY_FAILED: i32 = -7;
pub const SEDNA_UPDATE_SUCCEEDED: i32 = 8;
pub const SEDNA_UPDATE_FAILED: i32 = -9;
pub const SEDNA_BULK_LOAD_SUCCEEDED: i32 = 10;
pub const SEDNA_BULK_LOAD_FAILED: i32 = -11;
pub const SEDNA_BEGIN_TRANSACTION_SUCCEEDED: i32 = 12;
pub const SEDNA_BEGIN_TRANSACTION_FAILED: i32 = -13;
pub const SEDNA_ROLLBACK_TRANSACTION_SUCCEEDED: i32 = 14;
pub const SEDNA_ROLLBACK_TRANSACTION_FAILED: i32 = -15;
pub const SEDNA_COMMIT_TRANSACTION_SUCCEEDED: i32 = 16;
pub const SEDNA_COMMIT_TRANSACTION_FAILED: i32 = -17;
pub const SEDNA_NEXT_ITEM_SUCCEEDED: i32 = 18;
pub const SEDNA_NEXT_ITEM_FAILED: i32 = -19;
pub const SEDNA_NO_ITEM: i32 = -20;
pub const SEDNA_RESULT_END: i32 = -21;
pub const SEDNA_DATA_CHUNK_LOADED: i32 = 23;
pub const SEDNA_ERROR: i32 = -24;
pub const SEDNA_TRANSACTION_ACTIVE: i32 = 25;
pub const SEDNA_NO_TRANSACTION: i32 = 26;
pub const SEDNA_CONNECTION_OK: i32 = 27;
pub const SEDNA_CONNECTION_CLOSED: i32 = 28;
pub const SEDNA_CONNECTION_FAILED: i32 = -29;
pub const SEDNA_AUTOCOMMIT_OFF: i32 = 30;
pub const SEDNA_AUTOCOMMIT_ON: i32 = 31;

/// The size of the buffer that result data is read into, chunk by chunk.
pub const READ_CHUNK_SIZE: usize = 1048576;

/// A call into the driver whose return code says whether it succeeded.
#[derive(Debug, Clone, Copy, PartialEq, Eq, Structural)]
pub enum Request {
    Connect,
    Execute,
    BeginTransaction,
    CommitTransaction,
    RollbackTransaction,
    LoadData,
    EndLoadData,
}

/// The return codes that mean `request` succeeded.
pub open spec fn request_succeeded(request: Request, code: int) -> bool {
    match request {
        Request::Connect => code == SEDNA_SESSION_OPEN,
        Request::Execute => code == SEDNA_QUERY_SUCCEEDED || code == SEDNA_UPDATE_SUCCEEDED,
        Request::BeginTransaction => code == SEDNA_BEGIN_TRANSACTION_SUCCEEDED,
        Request::CommitTransaction => code == SEDNA_COMMIT_TRANSACTION_SUCCEEDED,
        Request::RollbackTransaction => code == SEDNA_ROLLBACK_TRANSACTION_SUCCEEDED,
        Request::LoadData => code == SEDNA_DATA_CHUNK_LOADED || code == SEDNA_BULK_LOAD_SUCCEEDED,
        Request::EndLoadData => code == SEDNA_BULK_LOAD_SUCCEEDED,
    }
}

/// Whether the driver's return `code` for `request` means success.
pub fn succeeded(request: Request, code: i32) -> (ok: bool)
    ensures
        ok == request_succeeded(request, code as int),
        ok ==> code > 0,
        request == Request::Connect ==> (ok <==> code == 1),
        request == Request::Execute ==> (ok <==> code == 6 || code == 8),
        request == Request::BeginTransaction ==> (ok <==> code == 12),
        request == Request::CommitTransaction ==> (ok <==> code == 16),
        request == Request::RollbackTransaction ==> (ok <==> code == 14),
        request == Request::LoadData ==> (ok <==> code == 23 || code == 10),
        request == Request::EndLoadData ==> (ok <==> code == 10),
{
    match request {
        Request::Connect => code == SEDNA_SESSION_OPEN,
        Request::Execute => code == SEDNA_QUERY_SUCCEEDED || code == SEDNA_UPDATE_SUCCEEDED,
        Request::BeginTransaction => code == SEDNA_BEGIN_TRANSACTION_SUCCEEDED,
        Request::CommitTransaction => code == SEDNA_COMMIT_TRANSACTION_SUCCEEDED,
        Request::RollbackTransaction => code == SEDNA_ROLLBACK_TRANSACTION_SUCCEEDED,
        Request::LoadData => code == SEDNA_DATA_CHUNK_LOADED || code == SEDNA_BULK_LOAD_SUCCEEDED,
        Request::EndLoadData => code == SEDNA_BULK_LOAD_SUCCEEDED,
    }
}

/// No error code means success: every code that counts as a success of a
/// request is positive, and every failure code the driver has (all of them
/// negative, such as `SEDNA_UPDATE_FAILED`, `SEDNA_BULK_LOAD_FAILED` or
/// `SEDNA_COMMIT_TRANSACTION_FAILED`) counts as a failure of every request.
pub proof fn lemma_failure_codes_never_succeed(request: Request, code: int)
    ensures
        request_succeeded(request, code) ==> code > 0,
        code < 0 ==> !request_succeeded(request, code),
        !request_succeeded(request, SEDNA_ERROR as int),
        !request_succeeded(request, SEDNA_QUERY_FAILED as int),
        !request_succeeded(request, SEDNA_UPDATE_FAILED as int),
        !request_succeeded(request, SEDNA_BULK_LOAD_FAILED as int),
        !request_succeeded(request, SEDNA_BEGIN_TRANSACTION_FAILED as int),
        !request_succeeded(request, SEDNA_COMMIT_TRANSACTION_FAILED as int),
        !request_succeeded(request, SEDNA_ROLLBACK_TRANSACTION_FAILED as int),
{
}

/// A request that is not a query or a load has exactly one success code:
/// two codes that both mean its success are the same code.
pub proof fn lemma_single_success_code(request: Request, code1: int, code2: int)
    requires
        request != Request::Execute,
        request != Request::LoadData,
        request_succeeded(request, code1),
        request_succeeded(request, code2),
    ensures
        code1 == code2,
{
}

/// A query succeeds on the two codes of a finished query and a finished
/// update and on no other; loading a chunk succeeds on "chunk loaded" and
/// "bulk load succeeded" and on no other.
pub proof fn lemma_two_success_codes(request: Request, code: int)
    requires
        request == Request::Execute || request == Request::LoadData,
        request_succeeded(request, code),
    ensures
        request == Request::Execute ==> code == SEDNA_QUERY_SUCCEEDED || code
            == SEDNA_UPDATE_SUCCEEDED,
        request == Request::LoadData ==> code == SEDNA_DATA_CHUNK_LOADED || code
            == SEDNA_BULK_LOAD_SUCCEEDED,
{
}

/// The three transaction requests never take each other's success code:
/// a begin, a commit and a rollback are told apart by the code alone.
pub proof fn lemma_transaction_codes_distinct(code: int)
    ensures
        !(request_succeeded(Request::BeginTransaction, code) && request_succeeded(
            Request::CommitTransaction,
            code,
        )),
        !(request_succeeded(Request::BeginTransaction, code) && request_succeeded(
            Request::RollbackTransaction,
            code,
        )),
        !(request_succeeded(Request::CommitTransaction, code) && request_succeeded(
            Request::RollbackTransaction,
            code,
        )),
{
}

/// The end of a load succeeds only on "bulk load succeeded", which is also
/// a success of loading a chunk: a load can only be ended as it can be
/// continued.
pub proof fn lemma_end_load_success(code: int)
    ensures
        request_succeeded(Request::EndLoadData, code) <==> code == SEDNA_BULK_LOAD_SUCCEEDED,
        request_succeeded(Request::EndLoadData, code) ==> request_succeeded(Request::LoadData, code),
{
}

/// A failed step of the protocol, with what the error report needs besides
/// the driver's last error message.
#[derive(Debug, Clone, Copy, PartialEq, Eq, Structural)]
pub enum Failure {
    Connect,
    Execute,
    BeginTransaction,
    CommitTransaction,
    RollbackTransaction,
    /// Loading a document; `error_code` is the driver's last error code.
    LoadData { error_code: i32 },
    EndLoadData,
    /// Moving to the next result item.
    NextItem,
    /// Reading the data of the current result item.
    GetData,
}

/// The error that a failed step becomes, given the driver's message.
pub open spec fn failure_view(failure: Failure, message: Seq<char>) -> SednaErrorView {
    match failure {
        Failure::Connect => SednaErrorView::ConnectionFailed(message),
        Failure::Execute => SednaErrorView::QueryFailed(message),
        Failure::BeginTransaction => SednaErrorView::TransactionFailed("Begin failed: "@ + message),
        Failure::CommitTransaction => SednaErrorView::TransactionFailed("Commit failed: "@ + message),
        Failure::RollbackTransaction => SednaErrorView::TransactionFailed(
            "Rollback failed: "@ + message,
        ),
        Failure::LoadData { error_code } => SednaErrorView::QueryFailed(
            "Load data failed (code "@ + signed_decimal(error_code as int) + "): "@ + message,
        ),
        Failure::EndLoadData => SednaErrorView::QueryFailed("End load data failed: "@ + message),
        Failure::NextItem => SednaErrorView::QueryFailed(message),
        Failure::GetData => SednaErrorView::QueryFailed("Failed to get data: "@ + message),
    }
}

fn prefixed(prefix: &str, message: &str) -> (s: String)
    ensures
        s@ == prefix@ + message@,
{
    let mut s = String::from_str(prefix);
    s.append(message);
    s
}

/// Builds the error of a failed step from the driver's last error message.
pub fn failure(step: Failure, message: String) -> (e: SednaError)
    ensures
        e@ == failure_view(step, message@),
{
    match step {
        Failure::Connect => SednaError::ConnectionFailed(message),
        Failure::Execute => SednaError::QueryFailed(message),
        Failure::BeginTransaction => SednaError::TransactionFailed(
            prefixed("Begin failed: ", message.as_str()),
        ),
        Failure::CommitTransaction => SednaError::TransactionFailed(
            prefixed("Commit failed: ", message.as_str()),
        ),
        Failure::RollbackTransaction => SednaError::TransactionFailed(
            prefixed("Rollback failed: ", message.as_str()),
        ),
        Failure::LoadData { error_code } => {
            let mut s = String::from_str("Load data failed (code ");
            push_signed_decimal(&mut s, error_code as i64);
            s.append("): ");
            s.append(message.as_str());
            SednaError::QueryFailed(s)
        },
        Failure::EndLoadData => SednaError::QueryFailed(
            prefixed("End load data failed: ", message.as_str()),
        ),
        Failure::NextItem => SednaError::QueryFailed(message),
        Failure::GetData => SednaError::QueryFailed(
            prefixed("Failed to get data: ", message.as_str()),
        ),
    }
}

/// The text an error carries, for the errors that carry one.
pub open spec fn error_text(e: SednaErrorView) -> Option<Seq<char>> {
    match e {
        SednaErrorView::ConnectionFailed(m) => Some(m),
        SednaErrorView::QueryFailed(m) => Some(m),
        SednaErrorView::TransactionFailed(m) => Some(m),
        _ => None,
    }
}

/// Whether `text` ends with `suffix`.
pub open spec fn ends_with(text: Seq<char>, suffix: Seq<char>) -> bool {
    suffix.len() <= text.len() && text.subrange(text.len() - suffix.len(), text.len() as int)
        == suffix
}

/// Every error of a failed step ends with the driver's own message, and its
/// kind follows the step: a failed connection is a connection failure, a
/// failed begin, commit or rollback a transaction failure, and every other
/// failed step a query failure.
pub proof fn lemma_failure_keeps_message(step: Failure, message: Seq<char>)
    ensures
        error_text(failure_view(step, message)) matches Some(text) && ends_with(text, message),
        step == Failure::Connect <==> failure_view(step, message) is ConnectionFailed,
        (step == Failure::BeginTransaction || step == Failure::CommitTransaction || step
            == Failure::RollbackTransaction) <==> failure_view(step, message) is TransactionFailed,
{
    let text = error_text(failure_view(step, message))->0;
    assert(text.subrange(text.len() - message.len(), text.len() as int) =~= message);
}

/// A failed begin, commit and rollback are told apart by their errors,
/// whatever the driver's message.
pub proof fn lemma_transaction_failures_distinct(message: Seq<char>)
    ensures
        failure_view(Failure::BeginTransaction, message) != failure_view(
            Failure::CommitTransaction,
            message,
        ),
        failure_view(Failure::BeginTransaction, message) != failure_view(
            Failure::RollbackTransaction,
            message,
        ),
        failure_view(Failure::CommitTransaction, message) != failure_view(
            Failure::RollbackTransaction,
            message,
        ),
{
    reveal_strlit("Begin failed: ");
    reveal_strlit("Commit failed: ");
    reveal_strlit("Rollback failed: ");
    let b = "Begin failed: "@ + message;
    let c = "Commit failed: "@ + message;
    let r = "Rollback failed: "@ + message;
    assert(b[0] != c[0]);
    assert(b[0] != r[0]);
    assert(c[0] != r[0]);
}

/// The driver's last error message, from the bytes of the C string it
/// points at, or `None` where it points nowhere.
pub open spec fn last_error_view(raw: Option<Seq<u8>>) -> Seq<char> {
    match raw {
        Some(bytes) => utf8_lossy(bytes),
        None => "Unknown error"@,
    }
}

/// Reads the driver's last error message: the bytes decoded leniently as
/// UTF-8, or "Unknown error" where there is no message.
pub fn last_error_text(raw: Option<Vec<u8>>) -> (s: String)
    ensures
        s@ == last_error_view(
            match raw {
                Some(v) => Some(v@),
                None => None,
            },
        ),
        raw matches Some(v) ==> (valid_utf8(v@) ==> s@ == decode_utf8(v@)),
{
    match raw {
        Some(bytes) => decode_lossy(bytes.as_slice()),
        None => String::from_str("Unknown error"),
    }
}

/// The address the driver is given to reach `host` on `port`: the bare host
/// name on the default port, `host:port` on any other.
pub open spec fn host_url_view(host: Seq<char>, port: nat) -> Seq<char> {
    if port == DEFAULT_PORT {
        host
    } else {
        host + ":"@ + decimal(port)
    }
}

/// The address the driver is given to reach `host` on `port`.
pub fn host_url(host: &str, port: u16) -> (url: String)
    ensures
        url@ == host_url_view(host@, port as nat),
{
    let mut url = String::from_str(host);
    if port != DEFAULT_PORT {
        url.append(":");
        push_decimal(&mut url, port as u64);
        proof {
            assert(url@ =~= host@ + ":"@ + decimal(port as nat));
        }
    }
    url
}

/// Distinct ports give distinct addresses for the same host: the default
/// port is the bare host, and any other port is the host, a colon and the
/// port's digits.
pub proof fn lemma_host_url_distinct_ports(host: Seq<char>, port1: nat, port2: nat)
    requires
        port1 != port2,
    ensures
        host_url_view(host, port1) != host_url_view(host, port2),
        host_url_view(host, DEFAULT_PORT as nat) == host,
        port1 != DEFAULT_PORT ==> host_url_view(host, port1).len() > host.len() + 1
            && host_url_view(host, port1).subrange(0, host.len() as int) == host,
{
    reveal_strlit(":");
    lemma_decimal_is_digits(port1);
    lemma_decimal_is_digits(port2);
    let u1 = host_url_view(host, port1);
    let u2 = host_url_view(host, port2);
    if port1 != DEFAULT_PORT {
        assert(u1.subrange(0, host.len() as int) =~= host);
    }
    if port1 != DEFAULT_PORT && port2 != DEFAULT_PORT && u1 == u2 {
        let n: int = host.len() as int + 1;
        assert(u1.subrange(n, u1.len() as int) =~= decimal(port1));
        assert(u2.subrange(n, u2.len() as int) =~= decimal(port2));
        lemma_decimal_injective(port1, port2);
    }
}

/// What the driver said when asked for the next result item.
#[derive(Debug, Clone, Copy, PartialEq, Eq, Structural)]
pub enum NextStatus {
    /// The result has no more items.
    End,
    /// An item is ready to be read.
    Item,
    /// The driver failed.
    Failed,
}

/// Reads the driver's return code for a request for the next result item.
pub fn classify_next(code: i32) -> (status: NextStatus)
    ensures
        code == SEDNA_RESULT_END ==> status == NextStatus::End,
        code == SEDNA_NEXT_ITEM_SUCCEEDED ==> status == NextStatus::Item,
        code != SEDNA_RESULT_END && code != SEDNA_NEXT_ITEM_SUCCEEDED ==> status
            == NextStatus::Failed,
{
    if code == SEDNA_RESULT_END {
        NextStatus::End
    } else if code == SEDNA_NEXT_ITEM_SUCCEEDED {
        NextStatus::Item
    } else {
        NextStatus::Failed
    }
}

/// What a read of item data said.
#[derive(Debug, Clone, Copy, PartialEq, Eq, Structural)]
pub enum ChunkStatus {
    /// Data was read; there may be more.
    More,
    /// The item is complete.
    Complete,
    /// The read failed.
    Failed,
}

/// The bytes of one result item, gathered chunk by chunk.
pub struct ItemBuffer {
    data: Vec<u8>,
}

impl View for ItemBuffer {
    type V = Seq<u8>;

    closed spec fn view(&self) -> Seq<u8> {
        self.data@
    }
}

impl ItemBuffer {
    /// An empty item.
    pub fn new() -> (b: ItemBuffer)
        ensures
            b@ == Seq::<u8>::empty(),
    {
        ItemBuffer { data: Vec::new() }
    }

    /// Takes in one read of the driver: `bytes_read` is what it returned and
    /// `chunk` the buffer it read into. A negative count is a failure, zero
    /// ends the item, and a positive count adds that many bytes.
    pub fn accept(&mut self, bytes_read: i32, chunk: &[u8]) -> (status: ChunkStatus)
        requires
            bytes_read <= chunk@.len(),
        ensures
            bytes_read < 0 ==> status == ChunkStatus::Failed && final(self)@ == old(self)@,
            bytes_read == 0 ==> status == ChunkStatus::Complete && final(self)@ == old(self)@,
            bytes_read > 0 ==> status == ChunkStatus::More && final(self)@ == old(self)@
                + chunk@.take(bytes_read as int),
    {
        if bytes_read < 0 {
            return ChunkStatus::Failed;
        }
        if bytes_read == 0 {
            return ChunkStatus::Complete;
        }
        let n: usize = bytes_read as usize;
        let mut i: usize = 0;
        while i < n
            invariant
                n <= chunk@.len(),
                i <= n,
                self.data@ == old(self)@ + chunk@.take(i as int),
            decreases n - i,
        {
            self.data.push(chunk[i]);
            i = i + 1;
            proof {
                assert(chunk@.take(i as int) =~= chunk@.take(i - 1).push(chunk@[i - 1]));
            }
        }
        ChunkStatus::More
    }

    /// The text of the item: its bytes decoded leniently as UTF-8.
    pub fn finish(self) -> (text: String)
        ensures
            text@ == utf8_lossy(self@),
            valid_utf8(self@) ==> text@ == decode_utf8(self@),
    {
        decode_lossy(self.data.as_slice())
    }
}

/// Whether none of the first `n` bytes is NUL.
pub open spec fn no_nul_before(bytes: Seq<u8>, n: int) -> bool {
    forall|j: int| 0 <= j < n ==> bytes[j] != 0
}

/// Where the first NUL byte of `bytes` is, if there is one.
pub fn first_nul(bytes: &[u8]) -> (r: Option<usize>)
    ensures
        r is None ==> no_nul_before(bytes@, bytes@.len() as int),
        r matches Some(p) ==> p < bytes@.len() && bytes@[p as int] == 0 && no_nul_before(
            bytes@,
            p as int,
        ),
{
    let mut i: usize = 0;
    while i < bytes.len()
        invariant
            i <= bytes@.len(),
            no_nul_before(bytes@, i as int),
        decreases bytes@.len() - i,
    {
        if bytes[i] == 0 {
            return Some(i);
        }
        i = i + 1;
    }
    None
}

/// Whether `text` can be handed to the C driver: `None` when it holds no
/// NUL byte, and otherwise the error naming the first NUL byte's position
/// and the text's bytes.
pub fn c_string_error(text: &str) -> (r: Option<SednaError>)
    ensures
        r is None <==> no_nul_before(text.spec_bytes(), text.spec_bytes().len() as int),
        r matches Some(e) ==> e@ matches SednaErrorView::InvalidCString { nul_position, bytes }
            && bytes == text.spec_bytes() && nul_position < bytes.len() && bytes[nul_position as int]
            == 0 && no_nul_before(bytes, nul_position as int),
{
    let bytes = text.as_bytes();
    match first_nul(bytes) {
        None => None,
        Some(p) => Some(SednaError::InvalidCString { nul_position: p, bytes: slice_to_vec(bytes) }),
    }
}

/// Takes in one answer to a request for the next item while all items are
/// collected: an item is kept, in order, and collecting goes on; the end of
/// the result stops it.
pub fn collect_item(items: &mut Vec<String>, next: Option<String>) -> (more: bool)
    ensures
        next is None ==> !more && final(items)@ == old(items)@,
        next matches Some(item) ==> more && final(items)@ == old(items)@.push(item),
{
    match next {
        Some(item) => {
            items.push(item);
            true
        },
        None => false,
    }
}

} // verus!
