//! The constrained values of a query: the fetch count, the format token and the sort order.

use vstd::prelude::*;
use vstd::string::*;
use crate::decimal::{decimal, push_decimal};
use crate::errors::{ConnpassCliError, ConnpassResult, ValidationError};
use crate::query::validator::Validator;

verus! {

/// The text of the error that rejects a fetch count.
pub const COUNT_RANGE_MESSAGE: &'static str =
    "`count` should be greater than or equal to 1 or less than or equals to 100. See more details: https://connpass.com/about/api/";

/// The text of the error that rejects a format token.
pub const FORMAT_TOKEN_MESSAGE: &'static str =
    "`format` can just accept the string \"json\". See more details: https://connpass.com/about/api/";

/// A number of events to fetch; valid from 1 to 100.
pub struct FetchCountRange(pub u8);

impl Validator for FetchCountRange {
    open spec fn valid(&self) -> bool {
        1 <= self.0 <= 100
    }

    open spec fn rejection(&self, e: ConnpassCliError) -> bool {
        e matches ConnpassCliError::Validation(v) && v is OutOfRange && v.text()
            == COUNT_RANGE_MESSAGE@
    }

    fn validate(self) -> (r: Result<Self, ConnpassCliError>) {
        if 1 <= self.0 && self.0 <= 100 {
            Ok(self)
        } else {
            Err(
                ConnpassCliError::Validation(
                    ValidationError::OutOfRange { msg: COUNT_RANGE_MESSAGE.to_owned() },
                ),
            )
        }
    }
}

/// A response format token; valid only when it is exactly `json`.
pub struct FormatJson(pub String);

impl Validator for FormatJson {
    open spec fn valid(&self) -> bool {
        self.0@ == "json"@
    }

    open spec fn rejection(&self, e: ConnpassCliError) -> bool {
        e matches ConnpassCliError::Validation(v) && v is InvalidToken && v.text()
            == FORMAT_TOKEN_MESSAGE@
    }

    fn validate(self) -> (r: Result<Self, ConnpassCliError>) {
        let json = "json".to_owned();
        if self.0 == json {
            Ok(self)
        } else {
            Err(
                ConnpassCliError::Validation(
                    ValidationError::InvalidToken { msg: FORMAT_TOKEN_MESSAGE.to_owned() },
                ),
            )
        }
    }
}

/// The order in which the service sorts the events it returns.
#[derive(PartialEq, Eq, Structural, Debug, Clone, Copy)]
pub enum OrderOption {
    LastModifiedDate,
    EventDate,
    Newer,
}

impl OrderOption {
    /// The numeric code that stands for this order on the wire.
    pub open spec fn code(self) -> u8 {
        match self {
            OrderOption::LastModifiedDate => 1,
            OrderOption::EventDate => 2,
            OrderOption::Newer => 3,
        }
    }

    /// The order that a numeric code stands for, if any.
    pub open spec fn decode(id: u8) -> Option<OrderOption> {
        if id == 1 {
            Some(OrderOption::LastModifiedDate)
        } else if id == 2 {
            Some(OrderOption::EventDate)
        } else if id == 3 {
            Some(OrderOption::Newer)
        } else {
            None
        }
    }

    /// The text of the error that rejects a code which stands for no order.
    pub open spec fn invalid_id_message(id: u8) -> Seq<char> {
        "Invalid id came here: "@ + decimal(id as nat)
    }

    /// Whether `r` is what decoding `id` must give: the order it stands for, or
    /// an `InvalidToken` error that cites the code.
    pub open spec fn decoded(id: u8, r: ConnpassResult<OrderOption>) -> bool {
        match r {
            Ok(o) => OrderOption::decode(id) == Some(o),
            Err(e) => OrderOption::decode(id) is None && (e matches ConnpassCliError::Validation(
                v,
            ) && v is InvalidToken && v.text() == OrderOption::invalid_id_message(id)),
        }
    }

    /// Decodes a numeric code.
    pub fn new(id: u8) -> (r: ConnpassResult<Self>)
        ensures
            OrderOption::decoded(id, r),
    {
        OrderOption::try_from(id)
    }

    /// Encodes this order as its numeric code.
    pub fn to_u8(self) -> (r: u8)
        ensures
            r == self.code(),
    {
        u8::from(self)
    }
}

impl From<OrderOption> for u8 {
    fn from(opt: OrderOption) -> (r: u8) {
        match opt {
            OrderOption::LastModifiedDate => 1,
            OrderOption::EventDate => 2,
            OrderOption::Newer => 3,
        }
    }
}

impl vstd::std_specs::convert::FromSpecImpl<OrderOption> for u8 {
    open spec fn obeys_from_spec() -> bool {
        true
    }

    open spec fn from_spec(opt: OrderOption) -> u8 {
        opt.code()
    }
}

impl TryFrom<u8> for OrderOption {
    type Error = ConnpassCliError;

    fn try_from(value: u8) -> (r: ConnpassResult<Self>)
        ensures
            OrderOption::decoded(value, r),
    {
        match value {
            1 => Ok(OrderOption::LastModifiedDate),
            2 => Ok(OrderOption::EventDate),
            3 => Ok(OrderOption::Newer),
            _ => {
                let mut msg = "Invalid id came here: ".to_owned();
                push_decimal(&mut msg, value as u64);
                Err(ConnpassCliError::Validation(ValidationError::InvalidToken { msg }))
            },
        }
    }
}

/// The error of a failed conversion owns its text, so no single value of the
/// specification stands for the result: the contract of `try_from` states it.
impl vstd::std_specs::convert::TryFromSpecImpl<u8> for OrderOption {
    open spec fn obeys_try_from_spec() -> bool {
        false
    }

    open spec fn try_from_spec(value: u8) -> Result<Self, ConnpassCliError> {
        arbitrary()
    }
}

/// Encoding an order and decoding the code gives the order back; a code
/// decodes to an order exactly when it lies between 1 and 3, and then the
/// order encodes to that same code.
pub proof fn lemma_order_code_round_trip(o: OrderOption, id: u8)
    ensures
        OrderOption::decode(o.code()) == Some(o),
        OrderOption::decode(id) is Some <==> 1 <= id <= 3,
        OrderOption::decode(id) == Some(o) ==> o.code() == id,
{
}

} // verus!
