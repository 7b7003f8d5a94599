//! Data model: the address records the service reports and the decoded
//! response payload they arrive in.

use vstd::prelude::*;

verus! {

/// One address record as the service reports it.  Every field is a required
/// string; the empty string is a legitimate value, distinct from an absent
/// field.
#[derive(Debug)]
pub struct Address {
    /// Primary locality name.
    pub address1: String,
    /// Secondary locality name.
    pub address2: String,
    /// Tertiary locality name.
    pub address3: String,
    /// Phonetic rendering of `address1`.
    pub kana1: String,
    /// Phonetic rendering of `address2`.
    pub kana2: String,
    /// Phonetic rendering of `address3`.
    pub kana3: String,
    /// Prefecture code, a string-encoded integer.
    pub prefcode: String,
    /// Canonical zipcode of the record.
    pub zipcode: String,
}

/// The mathematical content of an `Address`: its eight fields as character
/// sequences.
pub ghost struct AddressV {
    pub address1: Seq<char>,
    pub address2: Seq<char>,
    pub address3: Seq<char>,
    pub kana1: Seq<char>,
    pub kana2: Seq<char>,
    pub kana3: Seq<char>,
    pub prefcode: Seq<char>,
    pub zipcode: Seq<char>,
}

impl DeepView for Address {
    type V = AddressV;

    open spec fn deep_view(&self) -> AddressV {
        AddressV {
            address1: self.address1@,
            address2: self.address2@,
            address3: self.address3@,
            kana1: self.kana1@,
            kana2: self.kana2@,
            kana3: self.kana3@,
            prefcode: self.prefcode@,
            zipcode: self.zipcode@,
        }
    }
}

impl Clone for Address {
    fn clone(&self) -> (r: Self)
        ensures
            r == *self,
    {
        Address {
            address1: self.address1.clone(),
            address2: self.address2.clone(),
            address3: self.address3.clone(),
            kana1: self.kana1.clone(),
            kana2: self.kana2.clone(),
            kana3: self.kana3.clone(),
            prefcode: self.prefcode.clone(),
            zipcode: self.zipcode.clone(),
        }
    }
}

impl PartialEq for Address {
    fn eq(&self, other: &Self) -> (r: bool) {
        self.address1 == other.address1 && self.address2 == other.address2
            && self.address3 == other.address3 && self.kana1 == other.kana1
            && self.kana2 == other.kana2 && self.kana3 == other.kana3
            && self.prefcode == other.prefcode && self.zipcode == other.zipcode
    }
}

impl vstd::std_specs::cmp::PartialEqSpecImpl for Address {
    open spec fn obeys_eq_spec() -> bool {
        true
    }

    open spec fn eq_spec(&self, other: &Self) -> bool {
        self.deep_view() == other.deep_view()
    }
}

/// The decoded payload of a successful (status 200) response.  Every field
/// may be absent in the wire JSON, so each one is optional here.
#[derive(Debug)]
pub struct Response {
    /// Human-readable message from the service.
    pub message: Option<String>,
    /// The matching address records, in service order; `None` and an empty
    /// vector both mean that nothing matched.
    pub results: Option<Vec<Address>>,
    /// Service-level status code (distinct from the HTTP status).
    pub status: Option<i32>,
}

/// The mathematical content of a `Response`.
pub ghost struct ResponseV {
    pub message: Option<Seq<char>>,
    pub results: Option<Seq<AddressV>>,
    pub status: Option<i32>,
}

impl DeepView for Response {
    type V = ResponseV;

    open spec fn deep_view(&self) -> ResponseV {
        ResponseV {
            message: self.message.deep_view(),
            results: self.results.deep_view(),
            status: self.status.deep_view(),
        }
    }
}

/// Clones a record vector element by element.  The copy holds exactly the
/// same records in the same order.
fn clone_records(records: &Vec<Address>) -> (r: Vec<Address>)
    ensures
        r@ == records@,
{
    let mut out: Vec<Address> = Vec::new();
    let mut i: usize = 0;
    while i < records.len()
        invariant
            i <= records@.len(),
            out@ == records@.take(i as int),
        decreases records@.len() - i,
    {
        out.push(records[i].clone());
        proof {
            assert(out@ =~= records@.take(i + 1));
        }
        i = i + 1;
    }
    proof {
        assert(out@ =~= records@);
    }
    out
}

impl Clone for Response {
    fn clone(&self) -> (r: Self)
        ensures
            r.deep_view() == self.deep_view(),
    {
        Response {
            message: match &self.message {
                Some(m) => Some(m.clone()),
                None => None,
            },
            results: match &self.results {
                Some(records) => Some(clone_records(records)),
                None => None,
            },
            status: self.status,
        }
    }
}

/// The outcome a record sequence owes the caller: its first record, or
/// `None` when it is absent or empty.  "Present but empty" and "absent"
/// are deliberately identical; neither is an error.
pub open spec fn first_record(results: Option<Vec<Address>>) -> Option<Address> {
    match results {
        Some(records) => if records@.len() > 0 {
            Some(records@[0])
        } else {
            None
        },
        None => None,
    }
}

/// Returns the first record of a decoded response as an owned value, or
/// `None` when the response holds no records.  The length is checked before
/// the access, so an empty-but-present record sequence yields `None` rather
/// than a failed index.
pub fn first_address(response: &Response) -> (r: Option<Address>)
    ensures
        r == first_record(response.results),
{
    match &response.results {
        Some(records) => {
            if records.len() > 0 {
                Some(records[0].clone())
            } else {
                None
            }
        },
        None => None,
    }
}

} // verus!
