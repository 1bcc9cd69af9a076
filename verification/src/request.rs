//! Choosing invoices by date and category.

use crate::calendar::{date_text, write_date};
use crate::date::{earlier, Date};
use crate::error::Error;
use crate::filter::{first_day, last_day, reports_bound, DateShape, Request as TransactionRequest};
use crate::invoice::Invoice;
use crate::invoice_type::InvoiceType;
use vstd::prelude::*;
use vstd::string::StringExecFns;

verus! {

/// What to keep: invoices after `from` and up to `to`, of one category. A
/// field that is absent keeps everything.
#[derive(Clone, Debug)]
pub struct Request {
    pub from: Option<Date>,
    pub to: Option<Date>,
    pub invoice_type: Option<InvoiceType>,
}

/// Whether the request keeps the invoice. The range of dates is open below
/// and closed above.
pub open spec fn passes_invoice(invoice: Invoice, request: Request) -> bool {
    &&& request.from matches Some(from) ==> earlier(from, invoice.date)
    &&& request.to matches Some(to) ==> !earlier(to, invoice.date)
    &&& request.invoice_type matches Some(wanted) ==> invoice.invoice_type == wanted
}

impl Request {
    pub fn new(from: Option<Date>, to: Option<Date>, invoice_type: Option<InvoiceType>) -> (r:
        Self)
        ensures
            r == (Request { from, to, invoice_type }),
    {
        Request { from, to, invoice_type }
    }

    /// Whether every field is absent.
    pub fn empty(&self) -> (r: bool)
        ensures
            r == (self.from is None && self.to is None && self.invoice_type is None),
    {
        self.from.is_none() && self.to.is_none() && self.invoice_type.is_none()
    }

    pub fn invoice_type(&self) -> (r: Option<InvoiceType>)
        ensures
            r == self.invoice_type,
    {
        self.invoice_type
    }

    /// Whether the request keeps the invoice.
    pub fn keeps(&self, invoice: &Invoice) -> (r: bool)
        ensures
            r == passes_invoice(*invoice, *self),
    {
        if let Some(from) = &self.from {
            if !from.is_before(&invoice.date) {
                return false;
            }
        }
        if let Some(to) = &self.to {
            if to.is_before(&invoice.date) {
                return false;
            }
        }
        if let Some(wanted) = &self.invoice_type {
            if invoice.invoice_type != *wanted {
                return false;
            }
        }
        true
    }

    /// The day after which to look, from a text that names a day, a month
    /// or a year.
    pub fn parse_from_date(input: &str) -> (r: Result<Date, Error>)
        ensures
            reports_bound(r, input@, |shape: DateShape| first_day(input@, shape)),
            r matches Ok(d) ==> d.well_formed(),
    {
        TransactionRequest::parse_from_date(input)
    }

    /// The day up to which to look, from a text that names a day, a month
    /// or a year.
    pub fn parse_to_date(input: &str) -> (r: Result<Date, Error>)
        ensures
            reports_bound(r, input@, |shape: DateShape| last_day(input@, shape)),
            r matches Ok(d) ==> d.well_formed(),
    {
        TransactionRequest::parse_to_date(input)
    }

    /// Whether the dates of the request are days of the calendar.
    pub open spec fn dates_well_formed(&self) -> bool {
        &&& self.from matches Some(d) ==> d.well_formed()
        &&& self.to matches Some(d) ==> d.well_formed()
    }

    /// The request in words: the category and the dates, as far as they are
    /// there.
    pub open spec fn description(&self) -> Seq<char> {
        (match self.invoice_type {
            Some(wanted) => "Typ:"@ + wanted.label() + (if self.from is Some || self.to is Some {
                ", "@
            } else {
                Seq::<char>::empty()
            }),
            None => Seq::<char>::empty(),
        }) + (match self.from {
            Some(from) => "Von:"@ + date_text(from) + ", "@,
            None => Seq::<char>::empty(),
        }) + (match self.to {
            Some(to) => "Bis:"@ + date_text(to),
            None => Seq::<char>::empty(),
        })
    }

    /// The request in words.
    pub fn describe(&self) -> (r: String)
        requires
            self.dates_well_formed(),
        ensures
            r@ == self.description(),
    {
        let mut s = String::new();
        if let Some(wanted) = self.invoice_type {
            s.append("Typ:");
            s.append(wanted.to_str());
            if self.from.is_some() || self.to.is_some() {
                s.append(", ");
            }
        }
        if let Some(from) = &self.from {
            s.append("Von:");
            s.append(write_date(from).as_str());
            s.append(", ");
        }
        if let Some(to) = &self.to {
            s.append("Bis:");
            s.append(write_date(to).as_str());
        }
        proof {
            assert(s@ =~= self.description());
        }
        s
    }
}

} // verus!
