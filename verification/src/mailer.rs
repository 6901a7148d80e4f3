use vstd::prelude::*;

verus! {

/// A named email address: a display name together with the address itself.
/// Used for the sender, the reply-to target, and each recipient. No format
/// validation is performed; the provider rejects bad addresses server-side.
#[derive(Debug, Clone)]
pub struct Mailer {
    pub name: String,
    pub email: String,
}

impl Mailer {
    pub fn new(name: String, email: String) -> (mailer: Self)
        ensures
            mailer.name == name,
            mailer.email == email,
    {
        Self { name, email }
    }
}

} // verus!
