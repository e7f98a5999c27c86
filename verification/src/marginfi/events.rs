//! Events that the lending program writes into transaction logs.
//!
//! A log line that starts with `Program data: ` carries an event: the rest of
//! the line is standard Base64, and the decoded bytes are an eight-byte tag
//! followed by the event's fields in Borsh order. The tag is not examined:
//! a line is taken for an event of the asked kind when its bytes read as one.

use crate::layout::{read_key, read_u64, read_u8, spec_key_at, spec_u64_at, spec_u8_at, Pubkey};
use crate::marginfi::types::user_account::HealthCache;
use base64::Engine;
use vstd::prelude::*;
use vstd::slice::slice_subrange;

verus! {

/// The bytes of `Program data: `, with which a log line that carries an
/// event starts.
pub const PROGRAM_DATA_PREFIX: [u8; 14] = [
    80,
    114,
    111,
    103,
    114,
    97,
    109,
    32,
    100,
    97,
    116,
    97,
    58,
    32,
];

/// What the standard Base64 alphabet with padding decodes `text` to, or
/// `None` where `text` is not valid Base64.
pub uninterp spec fn base64_standard_decode(text: Seq<u8>) -> Option<Seq<u8>>;

/// Trusted: `base64::engine::general_purpose::STANDARD.decode`. The decoded
/// bytes depend on the text alone; the contract gives them their name and
/// claims nothing else.
#[verifier::external_body]
fn decode_base64(text: &[u8]) -> (r: Option<Vec<u8>>)
    ensures
        match r {
            Some(bytes) => base64_standard_decode(text@) == Some(bytes@),
            None => base64_standard_decode(text@) is None,
        },
{
    match base64::engine::general_purpose::STANDARD.decode(text) {
        Ok(bytes) => Some(bytes),
        Err(_) => None,
    }
}

/// Whether `line` starts with `prefix`.
pub open spec fn spec_starts_with(line: Seq<u8>, prefix: Seq<u8>) -> bool {
    line.len() >= prefix.len() && line.subrange(0, prefix.len() as int) == prefix
}

/// The fields of the event that decoded bytes carry: the bytes behind the
/// eight-byte tag. Fewer than eight bytes carry no event.
pub open spec fn spec_payload_of_decoded(decoded: Option<Seq<u8>>) -> Option<Seq<u8>> {
    match decoded {
        Some(bytes) => if bytes.len() < 8 {
            None
        } else {
            Some(bytes.subrange(8, bytes.len() as int))
        },
        None => None,
    }
}

/// The fields of the event that a log line carries, if it carries one.
pub open spec fn spec_event_payload(line: Seq<u8>) -> Option<Seq<u8>> {
    if !spec_starts_with(line, PROGRAM_DATA_PREFIX@) {
        None
    } else {
        spec_payload_of_decoded(base64_standard_decode(line.subrange(14, line.len() as int)))
    }
}

/// Tests whether a log line starts with `Program data: `.
pub fn is_program_data(line: &[u8]) -> (r: bool)
    ensures
        r == spec_starts_with(line@, PROGRAM_DATA_PREFIX@),
{
    if line.len() < 14 {
        return false;
    }
    let mut i: usize = 0;
    while i < 14
        invariant
            i <= 14,
            line@.len() >= 14,
            forall|j: int| 0 <= j < i ==> line@[j] == PROGRAM_DATA_PREFIX@[j],
        decreases 14 - i,
    {
        if line[i] != PROGRAM_DATA_PREFIX[i] {
            assert(line@.subrange(0, 14)[i as int] != PROGRAM_DATA_PREFIX@[i as int]);
            return false;
        }
        i += 1;
    }
    assert(line@.subrange(0, 14) =~= PROGRAM_DATA_PREFIX@);
    true
}

/// Drops the eight-byte tag from decoded event bytes.
pub fn payload_of_decoded(decoded: Option<Vec<u8>>) -> (r: Option<Vec<u8>>)
    ensures
        match r {
            Some(payload) => spec_payload_of_decoded(
                match decoded {
                    Some(bytes) => Some(bytes@),
                    None => None,
                },
            ) == Some(payload@),
            None => spec_payload_of_decoded(
                match decoded {
                    Some(bytes) => Some(bytes@),
                    None => None,
                },
            ) is None,
        },
{
    match decoded {
        Some(bytes) => {
            if bytes.len() < 8 {
                return None;
            }
            let mut payload: Vec<u8> = Vec::new();
            let mut i: usize = 8;
            while i < bytes.len()
                invariant
                    8 <= i <= bytes@.len(),
                    payload@ == bytes@.subrange(8, i as int),
                decreases bytes@.len() - i,
            {
                payload.push(bytes[i]);
                assert(bytes@.subrange(8, i + 1) =~= bytes@.subrange(8, i as int).push(
                    bytes@[i as int],
                ));
                i += 1;
            }
            Some(payload)
        },
        None => None,
    }
}

/// The fields of the event that a log line carries: the line must start
/// with `Program data: `, the rest must be Base64, and the decoded bytes
/// must be longer than a tag.
pub fn event_payload(line: &[u8]) -> (r: Option<Vec<u8>>)
    ensures
        match r {
            Some(payload) => spec_event_payload(line@) == Some(payload@),
            None => spec_event_payload(line@) is None,
        },
{
    if !is_program_data(line) {
        return None;
    }
    payload_of_decoded(decode_base64(slice_subrange(line, 14, line.len())))
}

/// Who an event is about.
#[derive(Clone, Copy, Debug)]
pub struct AccountEventHeader {
    /// The signer of the transaction, where the event names one.
    pub signer: Option<Pubkey>,
    pub marginfi_account: Pubkey,
    pub marginfi_account_authority: Pubkey,
    pub marginfi_group: Pubkey,
}

/// A withdrawal from a borrower's account.
#[derive(Clone, Copy, Debug)]
pub struct LendingAccountWithdrawEvent {
    pub header: AccountEventHeader,
    pub bank: Pubkey,
    pub mint: Pubkey,
    pub amount: u64,
    pub close_balance: bool,
}

/// Number of bytes that the optional signer takes: a tag byte, and the key
/// where the tag is one.
pub open spec fn spec_signer_len(payload: Seq<u8>) -> int {
    1 + 32 * (payload[0] as int)
}

impl LendingAccountWithdrawEvent {
    /// Whether `payload` reads as a withdrawal: the signer's tag is zero or
    /// one, all fields are there, and the closing flag is zero or one. Bytes
    /// behind the fields are not looked at.
    pub open spec fn spec_reads(payload: Seq<u8>) -> bool {
        &&& payload.len() >= 1
        &&& payload[0] <= 1
        &&& payload.len() >= spec_signer_len(payload) + 169
        &&& payload[spec_signer_len(payload) + 168] <= 1
    }

    /// Whether every field holds what `payload` holds at the field's place.
    pub open spec fn spec_is_event_of(&self, payload: Seq<u8>) -> bool {
        let at = spec_signer_len(payload);
        &&& match self.header.signer {
            Some(signer) => payload[0] == 1 && signer@ == spec_key_at(payload, 1),
            None => payload[0] == 0,
        }
        &&& self.header.marginfi_account@ == spec_key_at(payload, at)
        &&& self.header.marginfi_account_authority@ == spec_key_at(payload, at + 32)
        &&& self.header.marginfi_group@ == spec_key_at(payload, at + 64)
        &&& self.bank@ == spec_key_at(payload, at + 96)
        &&& self.mint@ == spec_key_at(payload, at + 128)
        &&& self.amount == spec_u64_at(payload, at + 160)
        &&& self.close_balance == (spec_u8_at(payload, at + 168) == 1)
    }

    /// Reads a withdrawal from an event's fields.
    pub fn parse(payload: &[u8]) -> (r: Option<LendingAccountWithdrawEvent>)
        ensures
            r is Some <==> LendingAccountWithdrawEvent::spec_reads(payload@),
            r matches Some(event) ==> event.spec_is_event_of(payload@),
    {
        if payload.len() < 1 {
            return None;
        }
        let tag = payload[0];
        if tag > 1 {
            return None;
        }
        let at: usize = if tag == 1 {
            33
        } else {
            1
        };
        if payload.len() < at + 169 {
            return None;
        }
        let flag = read_u8(payload, at + 168);
        if flag > 1 {
            return None;
        }
        let signer = if tag == 1 {
            Some(read_key(payload, 1))
        } else {
            None
        };
        Some(
            LendingAccountWithdrawEvent {
                header: AccountEventHeader {
                    signer,
                    marginfi_account: read_key(payload, at),
                    marginfi_account_authority: read_key(payload, at + 32),
                    marginfi_group: read_key(payload, at + 64),
                },
                bank: read_key(payload, at + 96),
                mint: read_key(payload, at + 128),
                amount: read_u64(payload, at + 160),
                close_balance: flag == 1,
            },
        )
    }
}

/// The health snapshot that the protocol reports for an account.
#[derive(Clone, Copy, Debug)]
pub struct HealthPulseEvent {
    pub account: Pubkey,
    pub health_cache: HealthCache,
}

impl HealthPulseEvent {
    /// Whether `payload` reads as a health pulse: an account key and a whole
    /// snapshot.
    pub open spec fn spec_reads(payload: Seq<u8>) -> bool {
        payload.len() >= 336
    }

    /// Whether every field holds what `payload` holds at the field's place.
    pub open spec fn spec_is_event_of(&self, payload: Seq<u8>) -> bool {
        &&& self.account@ == spec_key_at(payload, 0)
        &&& self.health_cache.spec_is_record_of(payload.subrange(32, 336))
    }

    /// Reads a health pulse from an event's fields.
    pub fn parse(payload: &[u8]) -> (r: Option<HealthPulseEvent>)
        ensures
            r is Some <==> HealthPulseEvent::spec_reads(payload@),
            r matches Some(event) ==> event.spec_is_event_of(payload@),
    {
        if payload.len() < 336 {
            return None;
        }
        Some(
            HealthPulseEvent {
                account: read_key(payload, 0),
                health_cache: HealthCache::from_body(slice_subrange(payload, 32, 336)),
            },
        )
    }
}

/// Whether a log line reports a withdrawal.
pub open spec fn spec_is_withdrawal(line: Seq<u8>) -> bool {
    match spec_event_payload(line) {
        Some(payload) => LendingAccountWithdrawEvent::spec_reads(payload),
        None => false,
    }
}

/// The withdrawal that a log line reports, if it reports one.
pub fn parse_anchor_event(line: &[u8]) -> (r: Option<LendingAccountWithdrawEvent>)
    ensures
        r is Some <==> spec_is_withdrawal(line@),
        r matches Some(event) ==> event.spec_is_event_of(spec_event_payload(line@)->0),
{
    match event_payload(line) {
        Some(payload) => LendingAccountWithdrawEvent::parse(payload.as_slice()),
        None => None,
    }
}

/// The places of the lines among the first `n` that report a withdrawal, in
/// rising order.
pub open spec fn spec_withdrawal_lines(logs: Seq<Vec<u8>>, n: nat) -> Seq<int>
    decreases n,
{
    if n == 0 {
        Seq::empty()
    } else {
        let before = spec_withdrawal_lines(logs, (n - 1) as nat);
        if spec_is_withdrawal(logs[n - 1]@) {
            before.push(n - 1)
        } else {
            before
        }
    }
}

/// The withdrawals to follow up after a transaction: the withdrawal of each
/// log line that reports one, in the order of the lines. A failed
/// transaction changed nothing and gives none.
pub fn listen_for_targets(failed: bool, logs: &Vec<Vec<u8>>) -> (r: Vec<LendingAccountWithdrawEvent>)
    ensures
        failed ==> r@.len() == 0,
        !failed ==> r@.len() == spec_withdrawal_lines(logs@, logs@.len()).len(),
        !failed ==> forall|i: int|
            0 <= i < r@.len() ==> (#[trigger] r@[i]).spec_is_event_of(
                spec_event_payload(logs@[spec_withdrawal_lines(logs@, logs@.len())[i]]@)->0,
            ),
{
    let mut targets: Vec<LendingAccountWithdrawEvent> = Vec::new();
    if failed {
        return targets;
    }
    let mut n: usize = 0;
    while n < logs.len()
        invariant
            n <= logs@.len(),
            targets@.len() == spec_withdrawal_lines(logs@, n as nat).len(),
            forall|i: int|
                0 <= i < targets@.len() ==> (#[trigger] targets@[i]).spec_is_event_of(
                    spec_event_payload(logs@[spec_withdrawal_lines(logs@, n as nat)[i]]@)->0,
                ),
        decreases logs@.len() - n,
    {
        match parse_anchor_event(logs[n].as_slice()) {
            Some(event) => {
                targets.push(event);
            },
            None => {},
        }
        n += 1;
    }
    targets
}

/// The health snapshot that the first log line with a health pulse reports.
pub fn lending_account_pulse_health(logs: &Vec<Vec<u8>>) -> (r: Option<HealthCache>)
    ensures
        match r {
            Some(cache) => exists|k: int|
                0 <= k < logs@.len() && spec_reports_health(logs@[k]@) && cache.spec_is_record_of(
                    (spec_event_payload(logs@[k]@)->0).subrange(32, 336),
                ) && forall|j: int| 0 <= j < k ==> !spec_reports_health(logs@[j]@),
            None => forall|k: int| 0 <= k < logs@.len() ==> !spec_reports_health(logs@[k]@),
        },
{
    let mut n: usize = 0;
    while n < logs.len()
        invariant
            n <= logs@.len(),
            forall|k: int| 0 <= k < n ==> !spec_reports_health(logs@[k]@),
        decreases logs@.len() - n,
    {
        match event_payload(logs[n].as_slice()) {
            Some(payload) => match HealthPulseEvent::parse(payload.as_slice()) {
                Some(event) => {
                    return Some(event.health_cache);
                },
                None => {},
            },
            None => {},
        }
        n += 1;
    }
    None
}

/// Whether a log line reports a health pulse.
pub open spec fn spec_reports_health(line: Seq<u8>) -> bool {
    match spec_event_payload(line) {
        Some(payload) => HealthPulseEvent::spec_reads(payload),
        None => false,
    }
}

} // verus!
