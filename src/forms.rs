use vstd::prelude::*;

use crate::commodity::is_digit;
use crate::error::ClientError;

verus! {

/// The fields of the sign-in form.
#[derive(Clone, Debug, PartialEq, Eq, Default)]
pub struct LoginFormData {
    pub email: String,
    pub password: String,
}

/// The fields of the registration form.
#[derive(Clone, Debug, PartialEq, Eq, Default)]
pub struct RegisterFormData {
    pub name: String,
    pub address: String,
    pub email: String,
    pub phone: String,
    pub password: String,
    pub code: String,
}

/// A field and the message shown under it.
pub type FieldMessage = (Seq<char>, Seq<char>);

/// `errors` are validation errors for exactly the listed fields and
/// messages, in order.
pub open spec fn reports(errors: Seq<ClientError>, expected: Seq<FieldMessage>) -> bool {
    &&& errors.len() == expected.len()
    &&& forall|i: int|
        0 <= i < errors.len() ==> (#[trigger] errors[i] matches ClientError::Validation {
            field,
            message,
        } && field@ == expected[i].0 && message@ == expected[i].1)
}

pub open spec fn report_if(failed: bool, field: Seq<char>, message: Seq<char>) -> Seq<
    FieldMessage,
> {
    if failed {
        seq![(field, message)]
    } else {
        Seq::empty()
    }
}

fn add_report(
    errors: &mut Vec<ClientError>,
    field: &str,
    message: &str,
    Ghost(expected): Ghost<Seq<FieldMessage>>,
)
    requires
        reports(old(errors)@, expected),
    ensures
        reports(final(errors)@, expected.push((field@, message@))),
{
    errors.push(
        ClientError::Validation { field: String::from_str(field), message: String::from_str(message) },
    );
}

pub open spec fn login_reports(email: Seq<char>, password: Seq<char>) -> Seq<FieldMessage> {
    report_if(email.len() == 0, "email"@, "Email is required"@) + report_if(
        password.len() == 0,
        "password"@,
        "Password is required"@,
    )
}

/// Checks the sign-in form: both fields are required. Returns the form, or
/// one error per missing field.
pub fn validate_login(email: String, password: String) -> (r: Result<LoginFormData, Vec<ClientError>>)
    ensures
        r is Ok <==> login_reports(email@, password@).len() == 0,
        r matches Ok(f) ==> f.email@ == email@ && f.password@ == password@,
        r matches Err(errors) ==> reports(errors@, login_reports(email@, password@)),
{
    let mut errors: Vec<ClientError> = Vec::new();
    let ghost mut expected: Seq<FieldMessage> = Seq::empty();
    if email.as_str().is_empty() {
        add_report(&mut errors, "email", "Email is required", Ghost(expected));
        proof {
            expected = expected.push(("email"@, "Email is required"@));
        }
    }
    if password.as_str().is_empty() {
        add_report(&mut errors, "password", "Password is required", Ghost(expected));
        proof {
            expected = expected.push(("password"@, "Password is required"@));
        }
    }
    assert(expected =~= login_reports(email@, password@));
    if errors.len() == 0 {
        Ok(LoginFormData { email, password })
    } else {
        Err(errors)
    }
}

/// What `str::to_lowercase` makes of a text.
pub uninterp spec fn lower_of(s: Seq<char>) -> Seq<char>;

/// Relies on `str::to_lowercase`: its result depends on the characters
/// alone; the empty text stays empty, and every character maps to at least
/// one, so a non-empty text stays non-empty.
#[verifier::external_body]
fn lowercase(s: &str) -> (r: String)
    ensures
        r@ == lower_of(s@),
        s@.len() == 0 ==> r@.len() == 0,
        s@.len() > 0 ==> r@.len() > 0,
{
    s.to_lowercase()
}

/// Eleven decimal digits.
pub open spec fn valid_phone(s: Seq<char>) -> bool {
    s.len() == 11 && forall|i: int| 0 <= i < s.len() ==> is_digit(#[trigger] s[i])
}

pub fn is_valid_phone(phone: &str) -> (r: bool)
    ensures
        r == valid_phone(phone@),
{
    let n = phone.unicode_len();
    if n != 11 {
        return false;
    }
    let mut i: usize = 0;
    while i < n
        invariant
            n == phone@.len(),
            i <= n,
            forall|j: int| 0 <= j < i ==> is_digit(#[trigger] phone@[j]),
        decreases n - i,
    {
        let c = phone.get_char(i);
        if !('0' <= c && c <= '9') {
            return false;
        }
        i = i + 1;
    }
    true
}

pub open spec fn registration_reports(
    name: Seq<char>,
    address: Seq<char>,
    email: Seq<char>,
    phone: Seq<char>,
    password: Seq<char>,
    code: Seq<char>,
) -> Seq<FieldMessage> {
    report_if(name.len() == 0, "name"@, "Name is required"@) + report_if(
        address.len() == 0,
        "address"@,
        "Address is required"@,
    ) + report_if(email.len() == 0, "email"@, "Email is required"@) + report_if(
        password.len() == 0,
        "password"@,
        "Password is required"@,
    ) + report_if(!valid_phone(phone), "phone"@, "Invalid phone number"@) + report_if(
        code.len() == 0,
        "code"@,
        "Code is required"@,
    )
}

/// Checks the registration form, whose address has already been lowered:
/// name, address, email, password and code are required, and the phone
/// number is eleven digits. Returns the form, or one error per failed field.
pub fn validate_registration_lowered(
    name: String,
    address: String,
    email: String,
    phone: String,
    password: String,
    code: String,
) -> (r: Result<RegisterFormData, Vec<ClientError>>)
    ensures
        r is Ok <==> registration_reports(
            name@,
            address@,
            email@,
            phone@,
            password@,
            code@,
        ).len() == 0,
        r matches Ok(f) ==> f.name@ == name@ && f.address@ == address@ && f.email@ == email@
            && f.phone@ == phone@ && f.password@ == password@ && f.code@ == code@,
        r matches Err(errors) ==> reports(
            errors@,
            registration_reports(name@, address@, email@, phone@, password@, code@),
        ),
{
    let mut errors: Vec<ClientError> = Vec::new();
    let ghost mut expected: Seq<FieldMessage> = Seq::empty();
    if name.as_str().is_empty() {
        add_report(&mut errors, "name", "Name is required", Ghost(expected));
        proof {
            expected = expected.push(("name"@, "Name is required"@));
        }
    }
    if address.as_str().is_empty() {
        add_report(&mut errors, "address", "Address is required", Ghost(expected));
        proof {
            expected = expected.push(("address"@, "Address is required"@));
        }
    }
    if email.as_str().is_empty() {
        add_report(&mut errors, "email", "Email is required", Ghost(expected));
        proof {
            expected = expected.push(("email"@, "Email is required"@));
        }
    }
    if password.as_str().is_empty() {
        add_report(&mut errors, "password", "Password is required", Ghost(expected));
        proof {
            expected = expected.push(("password"@, "Password is required"@));
        }
    }
    if !is_valid_phone(phone.as_str()) {
        add_report(&mut errors, "phone", "Invalid phone number", Ghost(expected));
        proof {
            expected = expected.push(("phone"@, "Invalid phone number"@));
        }
    }
    if code.as_str().is_empty() {
        add_report(&mut errors, "code", "Code is required", Ghost(expected));
        proof {
            expected = expected.push(("code"@, "Code is required"@));
        }
    }
    assert(expected =~= registration_reports(name@, address@, email@, phone@, password@, code@));
    if errors.len() == 0 {
        Ok(RegisterFormData { name, address, email, phone, password, code })
    } else {
        Err(errors)
    }
}

/// Checks the registration form as typed: the address is lowered first,
/// then the form is checked as [`validate_registration_lowered`] does.
pub fn validate_registration(
    name: String,
    address: &str,
    email: String,
    phone: String,
    password: String,
    code: String,
) -> (r: Result<RegisterFormData, Vec<ClientError>>)
    ensures
        r is Ok <==> registration_reports(
            name@,
            lower_of(address@),
            email@,
            phone@,
            password@,
            code@,
        ).len() == 0,
        r matches Ok(f) ==> f.name@ == name@ && f.address@ == lower_of(address@) && f.email@
            == email@ && f.phone@ == phone@ && f.password@ == password@ && f.code@ == code@,
        r matches Err(errors) ==> reports(
            errors@,
            registration_reports(name@, lower_of(address@), email@, phone@, password@, code@),
        ),
{
    let lowered = lowercase(address);
    validate_registration_lowered(name, lowered, email, phone, password, code)
}

} // verus!
