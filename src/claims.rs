use vstd::prelude::*;

verus! {

/// The claim set carried inside a token: the subject (a stringified subject
/// id), the expiry in unix seconds, and the subject's role.
#[derive(Debug)]
pub struct Claims {
    pub sub: String,
    pub exp: usize,
    pub role: u8,
}

/// What a claim set holds, as mathematical values.
pub struct ClaimsModel {
    pub sub: Seq<char>,
    pub exp: usize,
    pub role: u8,
}

impl View for Claims {
    type V = ClaimsModel;

    open spec fn view(&self) -> ClaimsModel {
        ClaimsModel { sub: self.sub@, exp: self.exp, role: self.role }
    }
}

impl Claims {
    pub fn new(sub: String, exp: usize, role: u8) -> (r: Self)
        ensures
            r.sub@ == sub@,
            r.exp == exp,
            r.role == role,
    {
        Self { sub, exp, role }
    }
}

} // verus!
