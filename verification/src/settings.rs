//! The `Setting` entity: a single named configuration value.

use vstd::prelude::*;

use crate::domain::{Entity, Value};
use crate::requests::CreateSettingRequest;

verus! {

/// Errors raised when a setting is built from raw input.
#[derive(Debug)]
pub enum SettingError {
    InvalidData(String),
    Unknown(String),
}

/// Non-empty name under which a setting is stored.
#[derive(Debug, PartialEq, Eq)]
pub struct SettingKey(pub(crate) String);

impl View for SettingKey {
    type V = Seq<char>;

    closed spec fn view(&self) -> Seq<char> {
        self.0@
    }
}

impl Value for SettingKey {
    type ValueType = String;

    fn value(&self) -> (r: &String)
        ensures
            r@ == self@,
    {
        &self.0
    }
}

impl Clone for SettingKey {
    fn clone(&self) -> (r: Self)
        ensures
            r == *self,
    {
        SettingKey(self.0.clone())
    }
}

impl SettingKey {
    /// Accepts exactly the non-empty keys.
    pub fn try_from(value: String) -> (r: Result<SettingKey, SettingError>)
        ensures
            value@.len() > 0 <==> r is Ok,
            r matches Ok(key) ==> key@ == value@,
            r matches Err(e) ==> (e matches SettingError::InvalidData(m)
                && m@ == "Setting key must not be empty"@),
    {
        if value.as_str().is_empty() {
            Err(SettingError::InvalidData("Setting key must not be empty".to_owned()))
        } else {
            Ok(SettingKey(value))
        }
    }
}

/// Non-empty payload of a setting.
#[derive(Debug)]
pub struct SettingValue(pub(crate) String);

impl View for SettingValue {
    type V = Seq<char>;

    closed spec fn view(&self) -> Seq<char> {
        self.0@
    }
}

impl Value for SettingValue {
    type ValueType = String;

    fn value(&self) -> (r: &String)
        ensures
            r@ == self@,
    {
        &self.0
    }
}

impl Clone for SettingValue {
    fn clone(&self) -> (r: Self)
        ensures
            r == *self,
    {
        SettingValue(self.0.clone())
    }
}

impl SettingValue {
    /// Accepts exactly the non-empty values.
    pub fn try_from(value: String) -> (r: Result<SettingValue, SettingError>)
        ensures
            value@.len() > 0 <==> r is Ok,
            r matches Ok(v) ==> v@ == value@,
            r matches Err(e) ==> (e matches SettingError::InvalidData(m)
                && m@ == "Setting value must not be empty"@),
    {
        if value.as_str().is_empty() {
            Err(SettingError::InvalidData("Setting value must not be empty".to_owned()))
        } else {
            Ok(SettingValue(value))
        }
    }
}

/// Mathematical image of a `Setting`.
#[verifier::ext_equal]
pub ghost struct SettingV {
    pub key: Seq<char>,
    pub value: Seq<char>,
}

/// A single named configuration value; both parts must be non-empty.
#[derive(Debug)]
pub struct Setting {
    key: SettingKey,
    value: SettingValue,
}

impl Entity for Setting {}

impl View for Setting {
    type V = SettingV;

    closed spec fn view(&self) -> SettingV {
        SettingV { key: self.key@, value: self.value@ }
    }
}

impl Clone for Setting {
    fn clone(&self) -> (r: Self)
        ensures
            r == *self,
    {
        Setting { key: self.key.clone(), value: self.value.clone() }
    }
}

impl Setting {
    /// Builds a setting. Fails exactly when the key or the value is empty,
    /// the key being checked first.
    pub fn new(key: String, value: String) -> (r: Result<Setting, SettingError>)
        ensures
            r is Ok <==> (key@.len() > 0 && value@.len() > 0),
            r matches Ok(s) ==> s@ == (SettingV { key: key@, value: value@ }),
            key@.len() == 0 ==> (r matches Err(e)
                && e matches SettingError::InvalidData(m)
                && m@ == "Setting key must not be empty"@),
            key@.len() > 0 && value@.len() == 0 ==> (r matches Err(e)
                && e matches SettingError::InvalidData(m)
                && m@ == "Setting value must not be empty"@),
    {
        let key = match SettingKey::try_from(key) {
            Ok(k) => k,
            Err(e) => {
                return Err(e);
            },
        };
        let value = match SettingValue::try_from(value) {
            Ok(v) => v,
            Err(e) => {
                return Err(e);
            },
        };
        Ok(Setting { key, value })
    }

    pub fn key(&self) -> (r: &SettingKey)
        ensures
            r@ == self@.key,
    {
        &self.key
    }

    pub fn value(&self) -> (r: &SettingValue)
        ensures
            r@ == self@.value,
    {
        &self.value
    }

    /// Builds a setting from an inbound creation request, enforcing the
    /// same rules as `new`.
    pub fn try_from(value: CreateSettingRequest) -> (r: Result<Setting, SettingError>)
        ensures
            r is Ok <==> (value.key@.len() > 0 && value.value@.len() > 0),
            r matches Ok(s) ==> s@ == (SettingV { key: value.key@, value: value.value@ }),
            value.key@.len() == 0 ==> (r matches Err(e)
                && e matches SettingError::InvalidData(m)
                && m@ == "Setting key must not be empty"@),
            value.key@.len() > 0 && value.value@.len() == 0 ==> (r matches Err(e)
                && e matches SettingError::InvalidData(m)
                && m@ == "Setting value must not be empty"@),
    {
        Setting::new(value.key, value.value)
    }
}

} // verus!
