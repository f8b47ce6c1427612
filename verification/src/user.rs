//! The user record and its mathematical model.

use vstd::prelude::*;

verus! {

use crate::user_client::UserClientError;

/// A user record. The identifier is optional: it is absent only on a record
/// that has never been persisted anywhere; both backing sources key records
/// by it.
#[derive(Debug, PartialEq, Eq)]
pub struct User {
    pub id: Option<String>,
    pub name: String,
    pub username: String,
    pub email: String,
    pub address: Address,
    pub phone: String,
    pub website: String,
    pub company: Company,
}

/// A postal address. The geo coordinates are an open string-keyed mapping,
/// held as key-value pairs in a fixed order.
#[derive(Debug, PartialEq, Eq)]
pub struct Address {
    pub street: String,
    pub suite: String,
    pub city: String,
    pub geo: Vec<(String, String)>,
}

/// Employer information.
#[derive(Debug, PartialEq, Eq)]
pub struct Company {
    pub name: String,
    pub catch_phrase: String,
    pub bs: String,
}

/// The abstract value of a `User`: every text field as a sequence of
/// characters. Contracts throughout the library speak of this value.
pub struct UserView {
    pub id: Option<Seq<char>>,
    pub name: Seq<char>,
    pub username: Seq<char>,
    pub email: Seq<char>,
    pub address: AddressView,
    pub phone: Seq<char>,
    pub website: Seq<char>,
    pub company: CompanyView,
}

/// The abstract value of an `Address`.
pub struct AddressView {
    pub street: Seq<char>,
    pub suite: Seq<char>,
    pub city: Seq<char>,
    pub geo: Seq<(Seq<char>, Seq<char>)>,
}

/// The abstract value of a `Company`.
pub struct CompanyView {
    pub name: Seq<char>,
    pub catch_phrase: Seq<char>,
    pub bs: Seq<char>,
}

impl View for Address {
    type V = AddressView;

    open spec fn view(&self) -> AddressView {
        AddressView {
            street: self.street@,
            suite: self.suite@,
            city: self.city@,
            geo: self.geo.deep_view(),
        }
    }
}

impl DeepView for Address {
    type V = AddressView;

    open spec fn deep_view(&self) -> AddressView {
        self.view()
    }
}

impl View for Company {
    type V = CompanyView;

    open spec fn view(&self) -> CompanyView {
        CompanyView { name: self.name@, catch_phrase: self.catch_phrase@, bs: self.bs@ }
    }
}

impl DeepView for Company {
    type V = CompanyView;

    open spec fn deep_view(&self) -> CompanyView {
        self.view()
    }
}

impl View for User {
    type V = UserView;

    open spec fn view(&self) -> UserView {
        UserView {
            id: self.id.deep_view(),
            name: self.name@,
            username: self.username@,
            email: self.email@,
            address: self.address@,
            phone: self.phone@,
            website: self.website@,
            company: self.company@,
        }
    }
}

impl DeepView for User {
    type V = UserView;

    open spec fn deep_view(&self) -> UserView {
        self.view()
    }
}

fn clone_geo(geo: &Vec<(String, String)>) -> (res: Vec<(String, String)>)
    ensures
        res.deep_view() == geo.deep_view(),
{
    let mut res: Vec<(String, String)> = Vec::new();
    let n = geo.len();
    for i in 0..n
        invariant
            n == geo.len(),
            res.len() == i,
            forall|j: int| 0 <= j < i ==> res.deep_view()[j] == geo.deep_view()[j],
    {
        let pair = &geo[i];
        res.push((pair.0.clone(), pair.1.clone()));
    }
    assert(res.deep_view() =~= geo.deep_view());
    res
}

impl Clone for Company {
    /// A clone keeps the abstract value.
    fn clone(&self) -> (res: Self)
        ensures
            res@ == self@,
    {
        Company {
            name: self.name.clone(),
            catch_phrase: self.catch_phrase.clone(),
            bs: self.bs.clone(),
        }
    }
}

impl Clone for Address {
    /// A clone keeps the abstract value.
    fn clone(&self) -> (res: Self)
        ensures
            res@ == self@,
    {
        Address {
            street: self.street.clone(),
            suite: self.suite.clone(),
            city: self.city.clone(),
            geo: clone_geo(&self.geo),
        }
    }
}

pub(crate) fn clone_opt_string(s: &Option<String>) -> (res: Option<String>)
    ensures
        res.deep_view() == s.deep_view(),
{
    match s {
        Some(inner) => Some(inner.clone()),
        None => None,
    }
}

impl Clone for User {
    /// A clone keeps the abstract value.
    fn clone(&self) -> (res: Self)
        ensures
            res@ == self@,
    {
        User {
            id: clone_opt_string(&self.id),
            name: self.name.clone(),
            username: self.username.clone(),
            email: self.email.clone(),
            address: self.address.clone(),
            phone: self.phone.clone(),
            website: self.website.clone(),
            company: self.company.clone(),
        }
    }
}

impl User {
    /// Create a new user. Meant for testing.
    pub fn _create_test_user(id: Option<String>) -> (res: User)
        ensures
            res@.id == id.deep_view(),
            res@.name == "TESTER"@,
            res@.username == "TESTER_69"@,
            res@.email == "testlover@testing.gov"@,
            res@.address.street == "Totallyrealstreet 6"@,
            res@.address.suite == "a 12"@,
            res@.address.city == "Testington"@,
            res@.address.geo == seq![("lat"@, "12"@), ("lon"@, "15"@)],
            res@.phone == "123456789"@,
            res@.website == "testing.gov"@,
            res@.company.name == "Testing"@,
            res@.company.catch_phrase == "Truly we are testing"@,
            res@.company.bs == "To test"@,
    {
        let mut geo: Vec<(String, String)> = Vec::new();
        geo.push(("lat".to_owned(), "12".to_owned()));
        geo.push(("lon".to_owned(), "15".to_owned()));
        assert(geo.deep_view() =~= seq![("lat"@, "12"@), ("lon"@, "15"@)]);
        User {
            id,
            name: "TESTER".to_owned(),
            username: "TESTER_69".to_owned(),
            email: "testlover@testing.gov".to_owned(),
            address: Address {
                street: "Totallyrealstreet 6".to_owned(),
                suite: "a 12".to_owned(),
                city: "Testington".to_owned(),
                geo,
            },
            phone: "123456789".to_owned(),
            website: "testing.gov".to_owned(),
            company: Company {
                name: "Testing".to_owned(),
                catch_phrase: "Truly we are testing".to_owned(),
                bs: "To test".to_owned(),
            },
        }
    }
}

/// Whether two optional identifiers hold the same value.
pub fn opt_string_eq(a: &Option<String>, b: &Option<String>) -> (r: bool)
    ensures
        r == (a.deep_view() == b.deep_view()),
{
    match (a, b) {
        (Some(x), Some(y)) => {
            assert(a.deep_view() == Some(x@));
            assert(b.deep_view() == Some(y@));
            *x == *y
        },
        (None, None) => true,
        (Some(x), None) => {
            assert(a.deep_view() == Some(x@));
            false
        },
        (None, Some(y)) => {
            assert(b.deep_view() == Some(y@));
            false
        },
    }
}

fn geo_eq(a: &Vec<(String, String)>, b: &Vec<(String, String)>) -> (r: bool)
    ensures
        r == (a.deep_view() == b.deep_view()),
{
    if a.len() != b.len() {
        assert(a.deep_view().len() != b.deep_view().len());
        return false;
    }
    let n = a.len();
    for i in 0..n
        invariant
            n == a.len(),
            n == b.len(),
            forall|j: int| 0 <= j < i ==> a.deep_view()[j] == b.deep_view()[j],
    {
        let pa = &a[i];
        let pb = &b[i];
        if !(pa.0 == pb.0 && pa.1 == pb.1) {
            assert(a.deep_view()[i as int] != b.deep_view()[i as int]);
            return false;
        }
    }
    assert(a.deep_view() =~= b.deep_view());
    true
}

/// Whether two addresses hold the same value, field by field; the geo mapping
/// is compared pair by pair (deep equality, not identity).
pub fn address_eq(a: &Address, b: &Address) -> (r: bool)
    ensures
        r == (a@ == b@),
{
    a.street == b.street && a.suite == b.suite && a.city == b.city && geo_eq(&a.geo, &b.geo)
}

/// Whether two employer records hold the same value, field by field.
pub fn company_eq(a: &Company, b: &Company) -> (r: bool)
    ensures
        r == (a@ == b@),
{
    a.name == b.name && a.catch_phrase == b.catch_phrase && a.bs == b.bs
}

/// The character of a single decimal digit.
pub open spec fn digit_char(d: nat) -> char {
    if d == 0 {
        '0'
    } else if d == 1 {
        '1'
    } else if d == 2 {
        '2'
    } else if d == 3 {
        '3'
    } else if d == 4 {
        '4'
    } else if d == 5 {
        '5'
    } else if d == 6 {
        '6'
    } else if d == 7 {
        '7'
    } else if d == 8 {
        '8'
    } else {
        '9'
    }
}

/// The decimal rendering of `n`: its digits, most significant first, with no
/// sign and no padding.
pub open spec fn spec_decimal(n: nat) -> Seq<char>
    decreases n,
{
    if n < 10 {
        seq![digit_char(n)]
    } else {
        spec_decimal(n / 10).push(digit_char(n % 10))
    }
}

/// Relies on std's Display for u64, through ToString::to_string: the decimal
/// digits of `n`, most significant first, with no sign and no padding.
#[verifier::external_body]
pub(crate) fn u64_to_string(n: u64) -> (r: String)
    ensures
        r@ == spec_decimal(n as nat),
{
    n.to_string()
}

/// The shape of the identifier field of a record on the wire: the directory
/// may encode an identifier as a JSON number, a JSON string, or null.
pub enum JsonId {
    /// The field was null: the record carries no identifier.
    Null,
    /// The field was a number in the non-negative 64-bit range. A number
    /// outside that range is handed over already rendered, as `Text`.
    Number(u64),
    /// The field was a string.
    Text(String),
    /// The field held any other kind of JSON value.
    Other,
}

/// Decode the identifier field of a wire record into the one identifier
/// representation used internally: null decodes to no identifier, a number to
/// its decimal string form, a string to itself unchanged. Any other kind of
/// value is a decode error.
pub fn deserialize_id(value: JsonId) -> (r: Result<Option<String>, UserClientError>)
    ensures
        value is Null ==> r matches Ok(None),
        value matches JsonId::Number(n) ==> (r matches Ok(Some(s)) && s@ == spec_decimal(
            n as nat,
        )),
        value matches JsonId::Text(t) ==> (r matches Ok(Some(s)) && s == t),
        value is Other ==> (r matches Err(e) && e == UserClientError::SerdeError),
{
    match value {
        JsonId::Null => Ok(None),
        JsonId::Number(n) => Ok(Some(u64_to_string(n))),
        JsonId::Text(t) => Ok(Some(t)),
        JsonId::Other => Err(UserClientError::SerdeError),
    }
}

} // verus!
