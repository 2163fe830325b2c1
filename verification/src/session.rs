//! In-memory, per-session state of the surrounding application: the
//! database passphrase and the user's demographics, held only for the
//! session and cleared on lock.  The passphrase's bytes are zeroed before
//! the value is dropped, so the secret does not linger in memory.

use vstd::prelude::*;

verus! {

/// The user's demographics, kept in memory for the session.  Derived body
/// measures are carried in thousandths.
#[derive(Debug)]
pub struct UserDemographics {
    pub height_cm: i32,
    pub weight_kg: i32,
    pub age: i32,
    pub sex: String,
    pub body_type: String,
    pub ethnicity: Option<String>,
    pub bmi_milli: Option<i64>,
    pub body_fat_estimate_milli: Option<i64>,
}

impl UserDemographics {
    /// A field-for-field copy.
    pub fn duplicate(&self) -> (r: UserDemographics)
        ensures
            r == *self,
    {
        UserDemographics {
            height_cm: self.height_cm,
            weight_kg: self.weight_kg,
            age: self.age,
            sex: self.sex.clone(),
            body_type: self.body_type.clone(),
            ethnicity: match &self.ethnicity {
                Some(e) => Some(e.clone()),
                None => None,
            },
            bmi_milli: self.bmi_milli,
            body_fat_estimate_milli: self.body_fat_estimate_milli,
        }
    }
}

/// Relies on zeroize::Zeroize for String: the string's bytes are zeroed
/// and the string is left empty.
#[verifier::external_body]
fn zeroize_string(s: &mut String)
    ensures
        final(s)@ == Seq::<char>::empty(),
{
    zeroize::Zeroize::zeroize(s);
}

/// The session's in-memory store.
pub struct SessionStore {
    pub demographics: Option<UserDemographics>,
    pub passphrase: Option<String>,
}

impl SessionStore {
    /// An empty store: nothing remembered yet.
    pub fn new() -> (s: SessionStore)
        ensures
            s.demographics is None,
            s.passphrase is None,
    {
        SessionStore { demographics: None, passphrase: None }
    }

    /// The demographics remembered for the session, if any.
    pub fn get_demographics_store(&self) -> (r: Option<UserDemographics>)
        ensures
            r == self.demographics,
    {
        match &self.demographics {
            Some(d) => Some(d.duplicate()),
            None => None,
        }
    }

    /// Remembers the demographics for the session.
    pub fn set_demographics_store(&mut self, demographics: UserDemographics)
        ensures
            final(self).demographics == Some(demographics),
            final(self).passphrase == old(self).passphrase,
    {
        self.demographics = Some(demographics);
    }

    /// Forgets the demographics.
    pub fn clear_demographics_store(&mut self)
        ensures
            final(self).demographics is None,
            final(self).passphrase == old(self).passphrase,
    {
        self.demographics = None;
    }

    /// The passphrase remembered for the session, if any.
    pub fn get_passphrase(&self) -> (r: Option<String>)
        ensures
            r == self.passphrase,
    {
        match &self.passphrase {
            Some(p) => Some(p.clone()),
            None => None,
        }
    }

    /// Remembers the passphrase for the session.
    pub fn set_passphrase(&mut self, passphrase: String)
        ensures
            final(self).passphrase == Some(passphrase),
            final(self).demographics == old(self).demographics,
    {
        self.passphrase = Some(passphrase);
    }

    /// Securely forgets the passphrase: its bytes are zeroed before the
    /// value is dropped.
    pub fn clear_passphrase(&mut self)
        ensures
            final(self).passphrase is None,
            final(self).demographics == old(self).demographics,
    {
        let taken = self.passphrase.take();
        match taken {
            Some(mut p) => {
                zeroize_string(&mut p);
            },
            None => {},
        }
    }

    /// Locks the session: clears the passphrase (zeroing its bytes) and
    /// the demographics.
    pub fn lock(&mut self)
        ensures
            final(self).passphrase is None,
            final(self).demographics is None,
    {
        self.clear_passphrase();
        self.clear_demographics_store();
    }
}

/// The database file's path under a data directory.
pub fn get_db_path(data_dir: &String) -> (r: String)
    ensures
        r@ == data_dir@ + "/biological-self.db"@,
{
    let mut r = data_dir.clone();
    r.append("/biological-self.db");
    r
}

} // verus!
