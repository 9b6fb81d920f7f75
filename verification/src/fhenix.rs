//! Decisions of the Fhenix Nitrogen JSON-RPC client: reading the hex
//! quantities that the node returns, shaping receipts, and polling for one.
use vstd::prelude::*;
use vstd::string::*;
use crate::text::{has_prefix, text_eq};

verus! {

/// Chain id of the Fhenix Nitrogen testnet.
pub const CHAIN_ID: u64 = 8008135;

/// How many times a receipt is fetched before giving up.
pub const RECEIPT_POLL_ATTEMPTS: u32 = 30;

/// Seconds to wait between two receipt fetches.
pub const RECEIPT_POLL_INTERVAL_SECS: u64 = 2;

/// Receipt of a mined transaction, as the node reports it.
#[derive(Debug, Clone, PartialEq, Eq)]
pub struct TransactionReceipt {
    pub transaction_hash: String,
    pub block_number: String,
    /// `0x1` for success, `0x0` for a revert.
    pub status: String,
    pub contract_address: Option<String>,
    pub gas_used: String,
}

/// Network facts shown by health checks and the UI.
#[derive(Debug, Clone, PartialEq, Eq)]
pub struct FhenixNetworkInfo {
    pub chain_id: u64,
    pub rpc_url: String,
    pub explorer_url: String,
    pub latest_block: u64,
}

/// The string members of a non-null `eth_getTransactionReceipt` result;
/// `None` where the member is missing or not a string.
#[derive(Debug, Clone, PartialEq, Eq)]
pub struct ReceiptFields {
    pub transaction_hash: Option<String>,
    pub block_number: Option<String>,
    pub status: Option<String>,
    pub contract_address: Option<String>,
    pub gas_used: Option<String>,
}

/// A hexadecimal digit, in either case.
pub open spec fn is_hex_char(c: char) -> bool {
    ||| (48 <= c as u32 && c as u32 <= 57)
    ||| (65 <= c as u32 && c as u32 <= 70)
    ||| (97 <= c as u32 && c as u32 <= 102)
}

/// Value of a hexadecimal digit.
pub open spec fn hex_char_value(c: char) -> int {
    if c as u32 <= 57 {
        c as u32 - 48
    } else if c as u32 <= 70 {
        c as u32 - 55
    } else {
        c as u32 - 87
    }
}

/// Every character is a hexadecimal digit.
pub open spec fn all_hex(s: Seq<char>) -> bool {
    forall|i: int| 0 <= i < s.len() ==> #[trigger] is_hex_char(s[i])
}

/// The number that a string of hexadecimal digits denotes.
pub open spec fn hex_value(s: Seq<char>) -> int
    decreases s.len(),
{
    if s.len() == 0 {
        0
    } else {
        hex_value(s.drop_last()) * 16 + hex_char_value(s.last())
    }
}

/// The digits of an unsigned radix-16 number text: a leading `+` is dropped
/// when something follows it.
pub open spec fn radix16_digits(s: Seq<char>) -> Seq<char> {
    if s.len() > 1 && s[0] == '+' {
        s.skip(1)
    } else {
        s
    }
}

/// What `from_str_radix(s, 16)` gives for an unsigned type whose largest
/// value is `max`: the value of a non-empty run of hex digits (after an
/// optional `+`) when it is at most `max`, otherwise nothing.
pub open spec fn parse_radix16(s: Seq<char>, max: int) -> Option<int> {
    let d = radix16_digits(s);
    if d.len() > 0 && all_hex(d) && hex_value(d) <= max {
        Some(hex_value(d))
    } else {
        None
    }
}

/// `s` with every leading `0x` removed, as `trim_start_matches("0x")` does.
pub open spec fn strip_0x(s: Seq<char>) -> Seq<char>
    decreases s.len(),
{
    if s.len() >= 2 && s[0] == '0' && s[1] == 'x' {
        strip_0x(s.skip(2))
    } else {
        s
    }
}

/// The quantity that a node's hex text denotes, read as `u64::from_str_radix`
/// reads the text after its `0x` prefixes, or 0 when that fails.
pub open spec fn quantity_u64(s: Seq<char>) -> int {
    match parse_radix16(strip_0x(s), u64::MAX as int) {
        Some(v) => v,
        None => 0,
    }
}

/// As `quantity_u64`, for `u128`.
pub open spec fn quantity_u128(s: Seq<char>) -> int {
    match parse_radix16(strip_0x(s), u128::MAX as int) {
        Some(v) => v,
        None => 0,
    }
}

proof fn lemma_hex_value_nonneg(s: Seq<char>)
    requires
        all_hex(s),
    ensures
        hex_value(s) >= 0,
    decreases s.len(),
{
    if s.len() > 0 {
        assert(is_hex_char(s[s.len() - 1]));
        lemma_hex_value_nonneg(s.drop_last());
    }
}

proof fn lemma_hex_value_prefix(s: Seq<char>, k: int)
    requires
        all_hex(s),
        0 <= k <= s.len(),
    ensures
        hex_value(s.subrange(0, k)) <= hex_value(s),
    decreases s.len(),
{
    if k == s.len() {
        assert(s.subrange(0, k) =~= s);
    } else {
        let t = s.drop_last();
        assert(t.subrange(0, k) =~= s.subrange(0, k));
        lemma_hex_value_prefix(t, k);
        lemma_hex_value_nonneg(t);
        assert(is_hex_char(s[s.len() - 1]));
    }
}

/// Index of the first character left after removing leading `0x` pairs.
fn skip_0x(s: &str) -> (start: usize)
    ensures
        start <= s@.len(),
        s@.skip(start as int) == strip_0x(s@),
{
    let n = s.unicode_len();
    let mut i: usize = 0;
    assert(s@.skip(0) =~= s@);
    while n - i >= 2 && s.get_char(i) == '0' && s.get_char(i + 1) == 'x'
        invariant
            n == s@.len(),
            i <= n,
            strip_0x(s@.skip(i as int)) == strip_0x(s@),
        decreases n - i,
    {
        assert(s@.skip(i as int).skip(2) =~= s@.skip(i + 2));
        i = i + 2;
    }
    assert(strip_0x(s@.skip(i as int)) == s@.skip(i as int));
    i
}

/// Reads the radix-16 number in `s` from index `start` on, as
/// `u128::from_str_radix` reads that part of the text.
fn parse_radix16_from(s: &str, start: usize) -> (r: Option<u128>)
    requires
        start <= s@.len(),
    ensures
        match r {
            Some(v) => parse_radix16(s@.skip(start as int), u128::MAX as int) == Some(v as int),
            None => parse_radix16(s@.skip(start as int), u128::MAX as int) is None,
        },
{
    let ghost t = s@.skip(start as int);
    let n = s.unicode_len();
    let mut i = start;
    if n - start > 1 && s.get_char(start) == '+' {
        i = start + 1;
    }
    let ghost d = radix16_digits(t);
    assert(d =~= s@.skip(i as int));
    if i == n {
        return None;
    }
    let mut acc: u128 = 0;
    let mut j = i;
    while j < n
        invariant
            n == s@.len(),
            i <= j <= n,
            i < n,
            d == s@.skip(i as int),
            d == radix16_digits(s@.skip(start as int)),
            forall|k: int| 0 <= k < j - i ==> is_hex_char(#[trigger] d[k]),
            acc as int == hex_value(d.subrange(0, j - i)),
        decreases n - j,
    {
        let c = s.get_char(j);
        assert(c == d[j - i]);
        let is_digit = ('0' <= c && c <= '9') || ('a' <= c && c <= 'f') || ('A' <= c && c <= 'F');
        if !is_digit {
            assert(!is_hex_char(d[j - i]));
            assert(!all_hex(d));
            return None;
        }
        let v: u32 = if c <= '9' {
            (c as u32) - 48
        } else if c <= 'F' {
            (c as u32) - 55
        } else {
            (c as u32) - 87
        };
        let ghost prefix = d.subrange(0, j + 1 - i);
        assert(prefix.drop_last() =~= d.subrange(0, j - i));
        assert(hex_value(prefix) == acc * 16 + v);
        let next = match acc.checked_mul(16) {
            Some(m) => m.checked_add(v as u128),
            None => None,
        };
        match next {
            Some(a) => {
                acc = a;
            },
            None => {
                proof {
                    if all_hex(d) {
                        lemma_hex_value_prefix(d, j + 1 - i);
                    }
                }
                return None;
            },
        }
        j = j + 1;
    }
    assert(d.subrange(0, n - i) =~= d);
    Some(acc)
}

/// The base-16 digit for `d` (from 0 to 15), in lower or upper case.
pub open spec fn hex_digit_for(d: int, upper: bool) -> char {
    if d == 0 {
        '0'
    } else if d == 1 {
        '1'
    } else if d == 2 {
        '2'
    } else if d == 3 {
        '3'
    } else if d == 4 {
        '4'
    } else if d == 5 {
        '5'
    } else if d == 6 {
        '6'
    } else if d == 7 {
        '7'
    } else if d == 8 {
        '8'
    } else if d == 9 {
        '9'
    } else if d == 10 {
        if upper { 'A' } else { 'a' }
    } else if d == 11 {
        if upper { 'B' } else { 'b' }
    } else if d == 12 {
        if upper { 'C' } else { 'c' }
    } else if d == 13 {
        if upper { 'D' } else { 'd' }
    } else if d == 14 {
        if upper { 'E' } else { 'e' }
    } else if upper {
        'F'
    } else {
        'f'
    }
}

/// `n` written in base 16, most significant digit first, with no leading
/// zeros (`0` for zero).
pub open spec fn hex_text_of(n: nat, upper: bool) -> Seq<char>
    decreases n,
{
    if n < 16 {
        seq![hex_digit_for(n as int, upper)]
    } else {
        hex_text_of(n / 16, upper).push(hex_digit_for((n % 16) as int, upper))
    }
}

proof fn lemma_hex_digit_for(d: int, upper: bool)
    requires
        0 <= d < 16,
    ensures
        is_hex_char(hex_digit_for(d, upper)),
        hex_char_value(hex_digit_for(d, upper)) == d,
        hex_digit_for(d, upper) != 'x',
        hex_digit_for(d, upper) != '+',
{
}

proof fn lemma_hex_text_of(n: nat, upper: bool)
    ensures
        hex_text_of(n, upper).len() >= 1,
        all_hex(hex_text_of(n, upper)),
        hex_value(hex_text_of(n, upper)) == n,
        forall|i: int| 0 <= i < hex_text_of(n, upper).len() ==> #[trigger] hex_text_of(n, upper)[i] != 'x'
            && hex_text_of(n, upper)[i] != '+',
    decreases n,
{
    let h = hex_text_of(n, upper);
    if n < 16 {
        lemma_hex_digit_for(n as int, upper);
        assert(h.drop_last() =~= Seq::<char>::empty());
        assert(h.last() == hex_digit_for(n as int, upper));
        assert(hex_value(h) == hex_value(h.drop_last()) * 16 + hex_char_value(h.last()));
    } else {
        let p = hex_text_of(n / 16, upper);
        let d = (n % 16) as int;
        lemma_hex_text_of(n / 16, upper);
        lemma_hex_digit_for(d, upper);
        assert(h == p.push(hex_digit_for(d, upper)));
        assert(h.drop_last() =~= p);
        assert(h.last() == hex_digit_for(d, upper));
        assert(hex_value(h) == hex_value(p) * 16 + d);
        vstd::arithmetic::div_mod::lemma_fundamental_div_mod(n as int, 16);
        assert(forall|i: int| 0 <= i < p.len() ==> h[i] == p[i]);
        assert forall|i: int| 0 <= i < h.len() implies #[trigger] is_hex_char(h[i]) by {
            if i < p.len() {
                assert(is_hex_char(p[i]));
            }
        }
    }
}

/// A node quantity written as `0x` and then the base-16 digits of a
/// number, in either case, reads back as that number, for every `u64`
/// and every `u128` value: each of `0`-`9`, `a`-`f` and `A`-`F` counts as
/// the digit it stands for. A number too large for the type reads as 0.
pub proof fn law_hex_quantities_read_back(n: nat, upper: bool)
    ensures
        n <= u64::MAX ==> quantity_u64("0x"@ + hex_text_of(n, upper)) == n,
        n <= u128::MAX ==> quantity_u128("0x"@ + hex_text_of(n, upper)) == n,
        n > u64::MAX ==> quantity_u64("0x"@ + hex_text_of(n, upper)) == 0,
        n > u128::MAX ==> quantity_u128("0x"@ + hex_text_of(n, upper)) == 0,
{
    reveal_strlit("0x");
    let h = hex_text_of(n, upper);
    let s = "0x"@ + h;
    lemma_hex_text_of(n, upper);
    assert(s.skip(2) =~= h);
    assert(s[0] == '0' && s[1] == 'x');
    assert(h.len() < 2 || h[1] != 'x');
    assert(strip_0x(h) == h);
    assert(strip_0x(s) == h);
    assert(radix16_digits(h) == h);
}

/// Every leading `0x` is passed over: one more in front of a quantity's
/// text does not change what it reads as.
pub proof fn law_leading_0x_is_passed_over(s: Seq<char>)
    ensures
        quantity_u64("0x"@ + s) == quantity_u64(s),
        quantity_u128("0x"@ + s) == quantity_u128(s),
{
    reveal_strlit("0x");
    let t = "0x"@ + s;
    assert(t.skip(2) =~= s);
    assert(t[0] == '0' && t[1] == 'x');
    assert(strip_0x(t) == strip_0x(s));
}

/// The quantity in a node's hex text, or 0 when it does not read as a `u64`.
pub fn read_quantity_u64(s: &str) -> (v: u64)
    ensures
        v == quantity_u64(s@),
{
    let start = skip_0x(s);
    match parse_radix16_from(s, start) {
        Some(v) => if v <= 0xffff_ffff_ffff_ffff {
            v as u64
        } else {
            0
        },
        None => 0,
    }
}

/// The quantity in a node's hex text, or 0 when it does not read as a `u128`.
pub fn read_quantity_u128(s: &str) -> (v: u128)
    ensures
        v == quantity_u128(s@),
{
    let start = skip_0x(s);
    match parse_radix16_from(s, start) {
        Some(v) => v,
        None => 0,
    }
}

/// A text view of an optional node string, with a default for `None`.
pub open spec fn text_or(s: Option<String>, default: Seq<char>) -> Seq<char> {
    match s {
        Some(t) => t@,
        None => default,
    }
}

fn string_or(s: Option<String>, default: &str) -> (r: String)
    ensures
        r@ == text_or(s, default@),
{
    match s {
        Some(t) => t,
        None => String::from_str(default),
    }
}

/// Network facts from the `eth_blockNumber` result (its string, if it is
/// one): the latest block is that hex quantity, or 0 when it does not read.
pub fn network_info_from_block(block: Option<String>) -> (info: FhenixNetworkInfo)
    ensures
        info.chain_id == CHAIN_ID,
        info.rpc_url@ == "https://api.nitrogen.fhenix.zone"@,
        info.explorer_url@ == "https://explorer.nitrogen.fhenix.zone"@,
        info.latest_block == quantity_u64(text_or(block, "0x0"@)),
{
    let text = string_or(block, "0x0");
    let latest_block = read_quantity_u64(text.as_str());
    FhenixNetworkInfo {
        chain_id: CHAIN_ID,
        rpc_url: String::from_str("https://api.nitrogen.fhenix.zone"),
        explorer_url: String::from_str("https://explorer.nitrogen.fhenix.zone"),
        latest_block,
    }
}

/// Balance in wei from the `eth_getBalance` result (its string, if it is
/// one), or 0 when it does not read as a `u128`.
pub fn balance_wei(result: Option<String>) -> (wei: u128)
    ensures
        wei == quantity_u128(text_or(result, "0x0"@)),
{
    let text = string_or(result, "0x0");
    read_quantity_u128(text.as_str())
}

/// The output of an `eth_call`: the result string, or `0x` when the result
/// is not a string.
pub fn contract_call_output(result: Option<String>) -> (out: String)
    ensures
        out@ == text_or(result, "0x"@),
{
    string_or(result, "0x")
}

/// The receipt described by an `eth_getTransactionReceipt` result; `None`
/// (a null result) means the transaction is not mined yet. Missing members
/// read as empty (hash) or `0x0` (block, status, gas).
pub fn receipt_from_rpc(result: Option<ReceiptFields>) -> (r: Option<TransactionReceipt>)
    ensures
        result is None <==> r is None,
        r matches Some(rc) ==> {
            let f = result->0;
            &&& rc.transaction_hash@ == text_or(f.transaction_hash, ""@)
            &&& rc.block_number@ == text_or(f.block_number, "0x0"@)
            &&& rc.status@ == text_or(f.status, "0x0"@)
            &&& rc.contract_address == f.contract_address
            &&& rc.gas_used@ == text_or(f.gas_used, "0x0"@)
        },
{
    match result {
        None => None,
        Some(f) => Some(
            TransactionReceipt {
                transaction_hash: string_or(f.transaction_hash, ""),
                block_number: string_or(f.block_number, "0x0"),
                status: string_or(f.status, "0x0"),
                contract_address: f.contract_address,
                gas_used: string_or(f.gas_used, "0x0"),
            },
        ),
    }
}

/// The failure message of a JSON-RPC answer that carries an `error` member
/// (given as its JSON text); an answer without one does not fail.
pub fn rpc_failure(error_json: Option<&str>) -> (r: Option<String>)
    ensures
        match error_json {
            None => r is None,
            Some(t) => r matches Some(m) && m@ == "Fhenix RPC error: "@ + t@,
        },
{
    match error_json {
        None => None,
        Some(t) => Some(String::from_str("Fhenix RPC error: ").concat(t)),
    }
}

/// A receipt reports success exactly when its status is `0x1`.
pub open spec fn receipt_succeeded(r: TransactionReceipt) -> bool {
    r.status@ == "0x1"@
}

/// A mined receipt counts as a success exactly when its status is `0x1`.
pub proof fn law_success_is_status_0x1(r: TransactionReceipt)
    ensures
        receipt_succeeded(r) <==> r.status@ == "0x1"@,
{
}

/// Whether a receipt counts as a success depends on its status alone, not
/// on its hash, block, contract address or gas.
pub proof fn law_success_depends_on_status_alone(r1: TransactionReceipt, r2: TransactionReceipt)
    requires
        r1.status@ == r2.status@,
    ensures
        receipt_succeeded(r1) == receipt_succeeded(r2),
{
}

/// Whether a transaction is known to have succeeded: mined, with status
/// `0x1`. An unmined transaction has not.
pub fn verify_tx_success(receipt: &Option<TransactionReceipt>) -> (ok: bool)
    ensures
        ok == (*receipt matches Some(r) && receipt_succeeded(r)),
        ok == (*receipt matches Some(r) && r.status@ == "0x1"@),
{
    match receipt {
        Some(r) => text_eq(r.status.as_str(), "0x1"),
        None => false,
    }
}

/// What the receipt poller does after one fetch.
#[derive(Debug, Clone, PartialEq, Eq)]
pub enum ReceiptPoll {
    /// The transaction is mined and succeeded: hand back its receipt.
    Mined(TransactionReceipt),
    /// The transaction is mined and reverted: fail with this message.
    Reverted(String),
    /// Not mined yet: wait the poll interval, then fetch attempt `next`.
    Retry { next: u32 },
    /// Not mined yet and no attempts left: wait the poll interval, then fail
    /// with this message.
    GiveUp(String),
}

/// One step of waiting for a receipt: `attempt` counts fetches from 0 and
/// `fetched` is what the latest fetch returned. At most
/// `RECEIPT_POLL_ATTEMPTS` fetches are ever asked for.
pub fn await_receipt_step(tx_hash: &str, attempt: u32, fetched: Option<TransactionReceipt>) -> (step: ReceiptPoll)
    requires
        attempt < RECEIPT_POLL_ATTEMPTS,
    ensures
        match fetched {
            Some(r) => if receipt_succeeded(r) {
                step == ReceiptPoll::Mined(r)
            } else {
                step matches ReceiptPoll::Reverted(m) && m@ == "Transaction reverted: "@ + tx_hash@
            },
            None => if attempt + 1 < RECEIPT_POLL_ATTEMPTS {
                step == ReceiptPoll::Retry { next: (attempt + 1) as u32 }
            } else {
                step matches ReceiptPoll::GiveUp(m) && m@ == "Receipt timeout for tx: "@ + tx_hash@
            },
        },
{
    match fetched {
        Some(r) => {
            if text_eq(r.status.as_str(), "0x1") {
                ReceiptPoll::Mined(r)
            } else {
                ReceiptPoll::Reverted(String::from_str("Transaction reverted: ").concat(tx_hash))
            }
        },
        None => {
            if attempt + 1 < RECEIPT_POLL_ATTEMPTS {
                ReceiptPoll::Retry { next: attempt + 1 }
            } else {
                ReceiptPoll::GiveUp(String::from_str("Receipt timeout for tx: ").concat(tx_hash))
            }
        },
    }
}

} // verus!
