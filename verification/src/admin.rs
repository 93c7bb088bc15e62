//! Admin requests to Mostro: the payload that adds a dispute solver, and the checks on
//! Mostro's answers to adding a solver and to taking a dispute.
use vstd::prelude::*;
use nostr_sdk::ToBech32;
use crate::order::{action_name, action_name_str, Action, Payload};
use crate::protocol::{handle_mostro_response, response_check, response_error_text, MessageKind, ResponseError};
use crate::text::{
    append_chars, append_str, chars_eq, chars_of, starts_with_str, string_of, trim, trim_chars, uuid_chars,
    uuid_text,
};

verus! {

/// What an added solver may do.
#[derive(Debug, Clone, Copy, PartialEq, Eq, Structural)]
pub enum SolverPermission {
    /// Read dispute chats only.
    Read,
    /// Read and resolve disputes.
    ReadWrite,
}

/// `nostr_sdk::PublicKey::from_hex` followed by `to_bech32`: the `npub` form of a public
/// key written as hex.
pub uninterp spec fn npub_of_hex(s: Seq<char>) -> Option<Seq<char>>;

/// `nostr_sdk::PublicKey::from_hex(s)` and its bech32 (`npub`) text; `None` when the text
/// is no hex public key. The contract claims only that the outcome is the named function
/// of the text.
#[verifier::external_body]
fn hex_pubkey_to_npub(s: &str) -> (r: Option<String>)
    ensures
        match r {
            Some(n) => npub_of_hex(s@) == Some(n@),
            None => npub_of_hex(s@) is None,
        },
{
    nostr_sdk::PublicKey::from_hex(s).ok().and_then(|pk| pk.to_bech32().ok())
}

/// The solver key as sent: trimmed; kept when it already starts with `npub1`; else its
/// `npub` form when it is a hex public key; else the trimmed text, for Mostro to judge.
pub open spec fn normalized_solver_pubkey(s: Seq<char>) -> Seq<char> {
    let t = trim(s);
    if t.len() >= 5 && t.subrange(0, 5) == "npub1"@ {
        t
    } else {
        match npub_of_hex(t) {
            Some(n) => n,
            None => t,
        }
    }
}

/// Normalize a solver public key to its `npub` form where possible.
pub fn normalize_solver_pubkey(pubkey: &str) -> (r: String)
    ensures
        r@ == normalized_solver_pubkey(pubkey@),
{
    let t = trim_chars(&chars_of(pubkey));
    if starts_with_str(&t, "npub1") {
        proof {
            reveal_strlit("npub1");
        }
        return string_of(&t);
    }
    proof {
        reveal_strlit("npub1");
    }
    let ts = string_of(&t);
    match hex_pubkey_to_npub(ts.as_str()) {
        Some(n) => n,
        None => ts,
    }
}

/// Payload text of an add-solver request: the normalized key, with `:read` appended for
/// a read-only solver.
pub fn build_solver_payload_text(pubkey: &str, permission: SolverPermission) -> (r: String)
    ensures
        r@ == match permission {
            SolverPermission::Read => normalized_solver_pubkey(pubkey@) + ":read"@,
            SolverPermission::ReadWrite => normalized_solver_pubkey(pubkey@),
        },
{
    let n = normalize_solver_pubkey(pubkey);
    match permission {
        SolverPermission::Read => {
            let mut v = chars_of(n.as_str());
            append_str(&mut v, ":read");
            string_of(&v)
        },
        SolverPermission::ReadWrite => n,
    }
}

/// Why Mostro's answer to an admin request was refused.
#[derive(Debug, Clone, Copy, PartialEq, Eq, Structural)]
pub enum AdminReplyError {
    NoResponse,
    /// Signed by someone other than the configured Mostro.
    WrongSender,
    /// Refused by the generic response check.
    Response(ResponseError),
    UnexpectedAction(Action),
    MismatchedAction { expected: Action, got: Action },
    /// `AdminTookDispute` without the solver's dispute information.
    DisputeInfoMissing,
    /// The answer is about another dispute: the requested id and the id the solver's
    /// dispute information carries.
    DisputeIdMismatch { expected: u128, got: u128 },
}

pub open spec fn admin_reply_error_text(e: AdminReplyError) -> Seq<char> {
    match e {
        AdminReplyError::NoResponse => "No response received from Mostro"@,
        AdminReplyError::WrongSender => "Received response from wrong sender"@,
        AdminReplyError::Response(r) => response_error_text(r),
        AdminReplyError::UnexpectedAction(a) => "Unexpected action in response: "@ + action_name(a),
        AdminReplyError::MismatchedAction { expected, got } =>
            "Received response with mismatched action. Expected: "@ + action_name(expected) + ", Got: "@
            + action_name(got),
        AdminReplyError::DisputeInfoMissing =>
            "Received AdminTookDispute response but SolverDisputeInfo not found in payload"@,
        AdminReplyError::DisputeIdMismatch { expected, got } => "Dispute ID mismatch: expected "@
            + uuid_text(expected) + ", got "@ + uuid_text(got),
    }
}

impl AdminReplyError {
    /// The error text.
    pub fn message(&self) -> (r: String)
        ensures
            r@ == admin_reply_error_text(*self),
    {
        let mut out: Vec<char> = Vec::new();
        match self {
            AdminReplyError::NoResponse => append_str(&mut out, "No response received from Mostro"),
            AdminReplyError::WrongSender => append_str(&mut out, "Received response from wrong sender"),
            AdminReplyError::Response(e) => {
                let t = e.message();
                append_str(&mut out, t.as_str());
            },
            AdminReplyError::UnexpectedAction(a) => {
                append_str(&mut out, "Unexpected action in response: ");
                append_str(&mut out, action_name_str(*a));
            },
            AdminReplyError::MismatchedAction { expected, got } => {
                append_str(&mut out, "Received response with mismatched action. Expected: ");
                append_str(&mut out, action_name_str(*expected));
                append_str(&mut out, ", Got: ");
                append_str(&mut out, action_name_str(*got));
            },
            AdminReplyError::DisputeInfoMissing => append_str(
                &mut out,
                "Received AdminTookDispute response but SolverDisputeInfo not found in payload",
            ),
            AdminReplyError::DisputeIdMismatch { expected, got } => {
                append_str(&mut out, "Dispute ID mismatch: expected ");
                append_chars(&mut out, &uuid_chars(*expected));
                append_str(&mut out, ", got ");
                append_chars(&mut out, &uuid_chars(*got));
            },
        }
        string_of(&out)
    }
}

pub open spec fn opt_message(first: Option<&MessageKind>) -> Option<MessageKind> {
    match first {
        Some(m) => Some(*m),
        None => None,
    }
}

/// Mostro's answer to adding a solver: it must exist, be signed by the configured Mostro
/// (compared by key text), pass the generic response check and be `AdminAddSolver`.
pub open spec fn add_solver_reply(
    first: Option<MessageKind>,
    sender: Seq<char>,
    mostro: Seq<char>,
    request_id: u64,
) -> Result<(), AdminReplyError> {
    match first {
        None => Err(AdminReplyError::NoResponse),
        Some(m) => if sender != mostro {
            Err(AdminReplyError::WrongSender)
        } else {
            match response_check(m, request_id) {
                Err(e) => Err(AdminReplyError::Response(e)),
                Ok(()) => if m.action != Action::AdminAddSolver {
                    Err(AdminReplyError::UnexpectedAction(m.action))
                } else {
                    Ok(())
                },
            }
        },
    }
}

/// Check the first answer to an add-solver request and its sender.
pub fn check_add_solver_reply(first: Option<&MessageKind>, sender: &str, mostro: &str, request_id: u64) -> (r:
    Result<(), AdminReplyError>)
    ensures
        r == add_solver_reply(opt_message(first), sender@, mostro@, request_id),
{
    let msg = match first {
        Some(m) => m,
        None => return Err(AdminReplyError::NoResponse),
    };
    if !chars_eq(&chars_of(sender), &chars_of(mostro)) {
        return Err(AdminReplyError::WrongSender);
    }
    match handle_mostro_response(msg, request_id) {
        Err(e) => Err(AdminReplyError::Response(e)),
        Ok(inner) => if inner.action != Action::AdminAddSolver {
            Err(AdminReplyError::UnexpectedAction(inner.action))
        } else {
            Ok(())
        },
    }
}

/// Mostro's answer to taking a dispute: it must exist, be signed by the configured Mostro,
/// be `AdminTookDispute`, carry the solver's dispute information, and name the requested
/// dispute. On success the dispute is stored as in progress.
pub open spec fn take_dispute_reply(
    first: Option<MessageKind>,
    sender: Seq<char>,
    mostro: Seq<char>,
    dispute_id: u128,
) -> Result<(), AdminReplyError> {
    match first {
        None => Err(AdminReplyError::NoResponse),
        Some(m) => if sender != mostro {
            Err(AdminReplyError::WrongSender)
        } else if m.action != Action::AdminTookDispute {
            Err(AdminReplyError::MismatchedAction { expected: Action::AdminTookDispute, got: m.action })
        } else {
            match m.payload {
                Some(Payload::Dispute(id, Some(info_id))) => if id != dispute_id {
                    Err(AdminReplyError::DisputeIdMismatch { expected: dispute_id, got: info_id })
                } else {
                    Ok(())
                },
                _ => Err(AdminReplyError::DisputeInfoMissing),
            }
        },
    }
}

/// Check the first answer to a take-dispute request and its sender.
pub fn check_take_dispute_reply(first: Option<&MessageKind>, sender: &str, mostro: &str, dispute_id: u128) -> (r:
    Result<(), AdminReplyError>)
    ensures
        r == take_dispute_reply(opt_message(first), sender@, mostro@, dispute_id),
{
    let msg = match first {
        Some(m) => m,
        None => return Err(AdminReplyError::NoResponse),
    };
    if !chars_eq(&chars_of(sender), &chars_of(mostro)) {
        return Err(AdminReplyError::WrongSender);
    }
    if msg.action != Action::AdminTookDispute {
        return Err(AdminReplyError::MismatchedAction { expected: Action::AdminTookDispute, got: msg.action });
    }
    match &msg.payload {
        Some(Payload::Dispute(id, Some(info_id))) => if *id != dispute_id {
            Err(AdminReplyError::DisputeIdMismatch { expected: dispute_id, got: *info_id })
        } else {
            Ok(())
        },
        _ => Err(AdminReplyError::DisputeInfoMissing),
    }
}

} // verus!
