//! Cross-check of the daemon's `AddInvoice` reply after taking a sell order: the reply
//! must describe the order that was taken, and its sats amount must be the one the book
//! promised, so a forged amount never reaches the payout invoice.
use vstd::prelude::*;
use crate::order::{kind_name, kind_name_str, status_name, status_name_str, OrderKind, OrderStatus, SmallOrder};
use crate::text::{append_chars, append_str, chars_of, i64_decimal, signed_decimal, string_of, uuid_chars, uuid_text};

verus! {

/// How the buyer-invoice sats of a fixed-price book order are verified when the Mostro
/// fee may be unknown.
#[derive(Debug, Clone, Copy, PartialEq, Eq, Structural)]
pub enum FeeCheck {
    /// Synchronous take: the fee is required; the amount must equal book minus split fee.
    ExactRequired,
    /// Listener after the bond: exact when the fee is known, otherwise
    /// `0 < returned amount <= book amount`.
    ExactOrUpperBound,
}

/// Why an `AddInvoice` reply was refused.
pub enum AddInvoiceError {
    RequestedIdMissing,
    ReplyIdMissing,
    IdMismatch { took: u128, sent: u128 },
    ReplyKindMissing,
    KindMismatch { expected: Option<OrderKind>, got: OrderKind },
    NotSellOrder { got: OrderKind },
    ReplyStatusMissing,
    StatusMismatch { got: OrderStatus },
    ReplyFiatCodeMissing,
    FiatCodeMismatch { expected: String, got: String },
    ExpectedFiatNotPositive { expected: i64 },
    FiatAmountMismatch { expected: i64, got: i64 },
    SatsMismatch { expected: i64, book: i64, got: i64 },
    FeeUnavailable,
    SatsOutOfRange { got: i64, book: i64 },
    MarketSatsNotPositive,
}

/// `i64::saturating_sub` on mathematical integers.
pub open spec fn saturating_sub_i64(a: int, b: int) -> int {
    if a - b > i64::MAX {
        i64::MAX as int
    } else if a - b < i64::MIN {
        i64::MIN as int
    } else {
        a - b
    }
}

/// Buyer payout sats for a fixed-price take: the book amount minus the Mostro split fee
/// charged to the buyer (saturating).
pub fn expected_buyer_invoice_sats(book_amount: i64, split_fee: i64) -> (r: i64)
    ensures
        r == saturating_sub_i64(book_amount as int, split_fee as int),
{
    let d: i128 = book_amount as i128 - split_fee as i128;
    if d > i64::MAX as i128 {
        i64::MAX
    } else if d < i64::MIN as i128 {
        i64::MIN
    } else {
        d as i64
    }
}

/// `Debug` rendering of an optional order kind.
pub open spec fn opt_kind_name(k: Option<OrderKind>) -> Seq<char> {
    match k {
        Some(k) => "Some("@ + kind_name(k) + ")"@,
        None => "None"@,
    }
}

/// The outcome of the reply check: `Ok` with the trusted sats amount, or the first
/// check that failed, in the order identity, kind, status, fiat, sats.
pub open spec fn add_invoice_check(
    requested: SmallOrder,
    returned: SmallOrder,
    take_fiat_amount: Option<i64>,
    split_fee: Option<i64>,
    fee_check: FeeCheck,
) -> Result<i64, AddInvoiceError> {
    let expected_fiat = match take_fiat_amount {
        Some(f) => f,
        None => requested.fiat_amount,
    };
    if requested.id is None {
        Err(AddInvoiceError::RequestedIdMissing)
    } else if returned.id is None {
        Err(AddInvoiceError::ReplyIdMissing)
    } else if requested.id != returned.id {
        Err(AddInvoiceError::IdMismatch { took: requested.id->0, sent: returned.id->0 })
    } else if returned.kind is None {
        Err(AddInvoiceError::ReplyKindMissing)
    } else if requested.kind is Some && requested.kind != returned.kind {
        Err(AddInvoiceError::KindMismatch { expected: requested.kind, got: returned.kind->0 })
    } else if returned.kind != Some(OrderKind::Sell) {
        Err(AddInvoiceError::NotSellOrder { got: returned.kind->0 })
    } else if returned.status is None {
        Err(AddInvoiceError::ReplyStatusMissing)
    } else if returned.status != Some(OrderStatus::WaitingBuyerInvoice) {
        Err(AddInvoiceError::StatusMismatch { got: returned.status->0 })
    } else if returned.fiat_code@.len() == 0 {
        Err(AddInvoiceError::ReplyFiatCodeMissing)
    } else if returned.fiat_code@ != requested.fiat_code@ {
        Err(
            AddInvoiceError::FiatCodeMismatch {
                expected: requested.fiat_code,
                got: returned.fiat_code,
            },
        )
    } else if expected_fiat <= 0 {
        Err(AddInvoiceError::ExpectedFiatNotPositive { expected: expected_fiat })
    } else if returned.fiat_amount != expected_fiat {
        Err(AddInvoiceError::FiatAmountMismatch { expected: expected_fiat, got: returned.fiat_amount })
    } else if requested.amount > 0 {
        match split_fee {
            Some(fee) => {
                let expected = saturating_sub_i64(requested.amount as int, fee as int);
                if returned.amount != expected {
                    Err(
                        AddInvoiceError::SatsMismatch {
                            expected: expected as i64,
                            book: requested.amount,
                            got: returned.amount,
                        },
                    )
                } else {
                    Ok(expected as i64)
                }
            },
            None => match fee_check {
                FeeCheck::ExactRequired => Err(AddInvoiceError::FeeUnavailable),
                FeeCheck::ExactOrUpperBound => if returned.amount <= 0 || returned.amount
                    > requested.amount {
                    Err(
                        AddInvoiceError::SatsOutOfRange {
                            got: returned.amount,
                            book: requested.amount,
                        },
                    )
                } else {
                    Ok(returned.amount)
                },
            },
        }
    } else if returned.amount <= 0 {
        Err(AddInvoiceError::MarketSatsNotPositive)
    } else {
        Ok(returned.amount)
    }
}

/// The error text shown to the user.
pub open spec fn add_invoice_error_text(e: AddInvoiceError) -> Seq<char> {
    match e {
        AddInvoiceError::RequestedIdMissing => "Taken order is missing id"@,
        AddInvoiceError::ReplyIdMissing => "AddInvoice reply missing order id"@,
        AddInvoiceError::IdMismatch { took, sent } => "AddInvoice order id mismatch: took "@
            + uuid_text(took) + ", daemon sent "@ + uuid_text(sent),
        AddInvoiceError::ReplyKindMissing => "AddInvoice reply missing order kind"@,
        AddInvoiceError::KindMismatch { expected, got } =>
            "AddInvoice order kind mismatch: expected "@ + opt_kind_name(expected) + ", got "@
            + kind_name(got),
        AddInvoiceError::NotSellOrder { got } => "AddInvoice after take-sell must be a sell order, got "@
            + kind_name(got),
        AddInvoiceError::ReplyStatusMissing => "AddInvoice reply missing order status"@,
        AddInvoiceError::StatusMismatch { got } =>
            "AddInvoice status mismatch: expected WaitingBuyerInvoice, got "@ + status_name(got),
        AddInvoiceError::ReplyFiatCodeMissing => "AddInvoice reply missing fiat code"@,
        AddInvoiceError::FiatCodeMismatch { expected, got } =>
            "AddInvoice fiat code mismatch: expected "@ + expected@ + ", got "@ + got@,
        AddInvoiceError::ExpectedFiatNotPositive { expected } =>
            "AddInvoice expected fiat amount must be positive, got "@ + signed_decimal(
                expected as int,
            ),
        AddInvoiceError::FiatAmountMismatch { expected, got } =>
            "AddInvoice fiat amount mismatch: expected "@ + signed_decimal(expected as int)
            + ", got "@ + signed_decimal(got as int),
        AddInvoiceError::SatsMismatch { expected, book, got } => "AddInvoice sats mismatch: expected "@
            + signed_decimal(expected as int) + " (book "@ + signed_decimal(book as int)
            + " minus fee), got "@ + signed_decimal(got as int),
        AddInvoiceError::FeeUnavailable =>
            "Cannot verify AddInvoice sats without Mostro fee from instance info"@,
        AddInvoiceError::SatsOutOfRange { got, book } =>
            "AddInvoice sats out of range without fee: got "@ + signed_decimal(got as int)
            + " (book "@ + signed_decimal(book as int) + ")"@,
        AddInvoiceError::MarketSatsNotPositive =>
            "AddInvoice market-price reply missing positive sats amount"@,
    }
}

impl AddInvoiceError {
    /// The error text, as the reply check reports it.
    pub fn message(&self) -> (r: String)
        ensures
            r@ == add_invoice_error_text(*self),
    {
        let mut out: Vec<char> = Vec::new();
        match self {
            AddInvoiceError::RequestedIdMissing => append_str(&mut out, "Taken order is missing id"),
            AddInvoiceError::ReplyIdMissing => append_str(
                &mut out,
                "AddInvoice reply missing order id",
            ),
            AddInvoiceError::IdMismatch { took, sent } => {
                append_str(&mut out, "AddInvoice order id mismatch: took ");
                append_chars(&mut out, &uuid_chars(*took));
                append_str(&mut out, ", daemon sent ");
                append_chars(&mut out, &uuid_chars(*sent));
            },
            AddInvoiceError::ReplyKindMissing => append_str(
                &mut out,
                "AddInvoice reply missing order kind",
            ),
            AddInvoiceError::KindMismatch { expected, got } => {
                append_str(&mut out, "AddInvoice order kind mismatch: expected ");
                match expected {
                    Some(k) => {
                        append_str(&mut out, "Some(");
                        append_str(&mut out, kind_name_str(*k));
                        append_str(&mut out, ")");
                    },
                    None => append_str(&mut out, "None"),
                }
                append_str(&mut out, ", got ");
                append_str(&mut out, kind_name_str(*got));
            },
            AddInvoiceError::NotSellOrder { got } => {
                append_str(&mut out, "AddInvoice after take-sell must be a sell order, got ");
                append_str(&mut out, kind_name_str(*got));
            },
            AddInvoiceError::ReplyStatusMissing => append_str(
                &mut out,
                "AddInvoice reply missing order status",
            ),
            AddInvoiceError::StatusMismatch { got } => {
                append_str(&mut out, "AddInvoice status mismatch: expected WaitingBuyerInvoice, got ");
                append_str(&mut out, status_name_str(*got));
            },
            AddInvoiceError::ReplyFiatCodeMissing => append_str(
                &mut out,
                "AddInvoice reply missing fiat code",
            ),
            AddInvoiceError::FiatCodeMismatch { expected, got } => {
                append_str(&mut out, "AddInvoice fiat code mismatch: expected ");
                append_str(&mut out, expected.as_str());
                append_str(&mut out, ", got ");
                append_str(&mut out, got.as_str());
            },
            AddInvoiceError::ExpectedFiatNotPositive { expected } => {
                append_str(&mut out, "AddInvoice expected fiat amount must be positive, got ");
                append_chars(&mut out, &i64_decimal(*expected));
            },
            AddInvoiceError::FiatAmountMismatch { expected, got } => {
                append_str(&mut out, "AddInvoice fiat amount mismatch: expected ");
                append_chars(&mut out, &i64_decimal(*expected));
                append_str(&mut out, ", got ");
                append_chars(&mut out, &i64_decimal(*got));
            },
            AddInvoiceError::SatsMismatch { expected, book, got } => {
                append_str(&mut out, "AddInvoice sats mismatch: expected ");
                append_chars(&mut out, &i64_decimal(*expected));
                append_str(&mut out, " (book ");
                append_chars(&mut out, &i64_decimal(*book));
                append_str(&mut out, " minus fee), got ");
                append_chars(&mut out, &i64_decimal(*got));
            },
            AddInvoiceError::FeeUnavailable => append_str(
                &mut out,
                "Cannot verify AddInvoice sats without Mostro fee from instance info",
            ),
            AddInvoiceError::SatsOutOfRange { got, book } => {
                append_str(&mut out, "AddInvoice sats out of range without fee: got ");
                append_chars(&mut out, &i64_decimal(*got));
                append_str(&mut out, " (book ");
                append_chars(&mut out, &i64_decimal(*book));
                append_str(&mut out, ")");
            },
            AddInvoiceError::MarketSatsNotPositive => append_str(
                &mut out,
                "AddInvoice market-price reply missing positive sats amount",
            ),
        }
        string_of(&out)
    }
}

/// Cross-check a take-sell `AddInvoice` order against the book order that was taken,
/// with the given fee policy. `split_fee` is the Mostro fee charged to the buyer when the
/// instance advertises a fee rate. On success returns the sats amount to show and persist.
pub fn validate_take_sell_add_invoice_reply_with_fee_check(
    requested: &SmallOrder,
    returned: &SmallOrder,
    take_fiat_amount: Option<i64>,
    split_fee: Option<i64>,
    fee_check: FeeCheck,
) -> (r: Result<i64, AddInvoiceError>)
    ensures
        r == add_invoice_check(*requested, *returned, take_fiat_amount, split_fee, fee_check),
{
    let req_id = match requested.id {
        Some(id) => id,
        None => return Err(AddInvoiceError::RequestedIdMissing),
    };
    let ret_id = match returned.id {
        Some(id) => id,
        None => return Err(AddInvoiceError::ReplyIdMissing),
    };
    if req_id != ret_id {
        return Err(AddInvoiceError::IdMismatch { took: req_id, sent: ret_id });
    }
    let kind = match returned.kind {
        Some(k) => k,
        None => return Err(AddInvoiceError::ReplyKindMissing),
    };
    match requested.kind {
        Some(k) => {
            if k != kind {
                return Err(AddInvoiceError::KindMismatch { expected: requested.kind, got: kind });
            }
        },
        None => {},
    }
    if kind != OrderKind::Sell {
        return Err(AddInvoiceError::NotSellOrder { got: kind });
    }
    let status = match returned.status {
        Some(s) => s,
        None => return Err(AddInvoiceError::ReplyStatusMissing),
    };
    if status != OrderStatus::WaitingBuyerInvoice {
        return Err(AddInvoiceError::StatusMismatch { got: status });
    }
    let ret_code = chars_of(returned.fiat_code.as_str());
    if ret_code.len() == 0 {
        return Err(AddInvoiceError::ReplyFiatCodeMissing);
    }
    let req_code = chars_of(requested.fiat_code.as_str());
    if !crate::text::chars_eq(&ret_code, &req_code) {
        return Err(
            AddInvoiceError::FiatCodeMismatch {
                expected: requested.fiat_code.clone(),
                got: returned.fiat_code.clone(),
            },
        );
    }
    let expected_fiat = match take_fiat_amount {
        Some(f) => f,
        None => requested.fiat_amount,
    };
    if expected_fiat <= 0 {
        return Err(AddInvoiceError::ExpectedFiatNotPositive { expected: expected_fiat });
    }
    if returned.fiat_amount != expected_fiat {
        return Err(
            AddInvoiceError::FiatAmountMismatch { expected: expected_fiat, got: returned.fiat_amount },
        );
    }
    if requested.amount > 0 {
        match split_fee {
            Some(fee) => {
                let expected = expected_buyer_invoice_sats(requested.amount, fee);
                if returned.amount != expected {
                    return Err(
                        AddInvoiceError::SatsMismatch {
                            expected,
                            book: requested.amount,
                            got: returned.amount,
                        },
                    );
                }
                return Ok(expected);
            },
            None => {
                match fee_check {
                    FeeCheck::ExactRequired => {
                        return Err(AddInvoiceError::FeeUnavailable);
                    },
                    FeeCheck::ExactOrUpperBound => {
                        if returned.amount <= 0 || returned.amount > requested.amount {
                            return Err(
                                AddInvoiceError::SatsOutOfRange {
                                    got: returned.amount,
                                    book: requested.amount,
                                },
                            );
                        }
                        return Ok(returned.amount);
                    },
                }
            },
        }
    }
    if returned.amount <= 0 {
        return Err(AddInvoiceError::MarketSatsNotPositive);
    }
    Ok(returned.amount)
}

/// The synchronous take path: [`validate_take_sell_add_invoice_reply_with_fee_check`] with
/// [`FeeCheck::ExactRequired`].
pub fn validate_take_sell_add_invoice_reply(
    requested: &SmallOrder,
    returned: &SmallOrder,
    take_fiat_amount: Option<i64>,
    split_fee: Option<i64>,
) -> (r: Result<i64, AddInvoiceError>)
    ensures
        r == add_invoice_check(
            *requested,
            *returned,
            take_fiat_amount,
            split_fee,
            FeeCheck::ExactRequired,
        ),
{
    validate_take_sell_add_invoice_reply_with_fee_check(
        requested,
        returned,
        take_fiat_amount,
        split_fee,
        FeeCheck::ExactRequired,
    )
}

/// A reply accepted under the exact policy is accepted, with the same amount, under the
/// upper-bound policy. Whatever the policy, an accepted reply names the order that was
/// taken (same id, a sell order, waiting for the buyer invoice, same fiat code and a
/// positive fiat amount equal to the one taken), and the amount returned is the reply's own.
pub proof fn add_invoice_acceptance_law(
    requested: SmallOrder,
    returned: SmallOrder,
    take_fiat_amount: Option<i64>,
    split_fee: Option<i64>,
    fee_check: FeeCheck,
)
    ensures
        add_invoice_check(requested, returned, take_fiat_amount, split_fee, FeeCheck::ExactRequired)
            is Ok ==> add_invoice_check(
            requested,
            returned,
            take_fiat_amount,
            split_fee,
            FeeCheck::ExactOrUpperBound,
        ) == add_invoice_check(
            requested,
            returned,
            take_fiat_amount,
            split_fee,
            FeeCheck::ExactRequired,
        ),
        add_invoice_check(requested, returned, take_fiat_amount, split_fee, fee_check) matches Ok(
            v,
        ) ==> {
            &&& v == returned.amount
            &&& requested.id is Some
            &&& returned.id == requested.id
            &&& returned.kind == Some(OrderKind::Sell)
            &&& returned.status == Some(OrderStatus::WaitingBuyerInvoice)
            &&& returned.fiat_code@ == requested.fiat_code@
            &&& returned.fiat_amount > 0
            &&& returned.fiat_amount == match take_fiat_amount {
                Some(f) => f,
                None => requested.fiat_amount,
            }
        },
{
}


/// A fixed-price take with a known Mostro fee pays the buyer the book amount minus the fee:
/// whatever the fee policy, the reply is accepted only when its sats are exactly that,
/// and the accepted amount is that; a reply carrying any other sats (the full book amount
/// included, when the fee is not zero) is refused.
pub proof fn add_invoice_fixed_price_sats_law(
    requested: SmallOrder,
    returned: SmallOrder,
    take_fiat_amount: Option<i64>,
    fee: i64,
    fee_check: FeeCheck,
)
    requires
        requested.amount > 0,
        i64::MIN <= requested.amount - fee <= i64::MAX,
    ensures
        add_invoice_check(requested, returned, take_fiat_amount, Some(fee), fee_check) matches Ok(v) ==> (
        v == requested.amount - fee && returned.amount == requested.amount - fee),
        returned.amount != requested.amount - fee ==> add_invoice_check(
            requested,
            returned,
            take_fiat_amount,
            Some(fee),
            fee_check,
        ) is Err,
        fee != 0 && returned.amount == requested.amount ==> add_invoice_check(
            requested,
            returned,
            take_fiat_amount,
            Some(fee),
            fee_check,
        ) is Err,
{
}

} // verus!
