//! The schema model: the typed entities of the document, each field with its
//! canonical key and historical alias, and the binder that populates an
//! entity from a decoded table. Binding is all or nothing: the first field
//! that fails to bind aborts the whole document with its error.

use vstd::prelude::*;

use crate::coerce::{AccountKey, NetAddress, ascii_eq, eq_ignore_case};
use crate::errors::{Error, ErrorV};
use crate::tree::{
    DocValue, bool_ok, bool_val, fderr, find_field, get_bool, get_i64, get_rich, get_str,
    get_str_seq, get_u8, i64_ok, i64_val, opt_text_view, rich_ok, rich_val, spec_find, str_ok,
    str_seq_ok, str_seq_val, str_val, u8_ok, u8_val,
};

verus! {

// ---------------------------------------------------------------------------
// Enumerated tags
// ---------------------------------------------------------------------------

/// Status of a token: a closed set of tags, matched caselessly; an
/// unrecognized tag is a decoding error, never a silent default.
#[derive(Debug, Clone, Copy, PartialEq, Eq, Structural)]
pub enum CurrencyStatus {
    /// Token is live.
    Live,
    /// Token is dead.
    Dead,
    /// Token is for testing.
    Test,
    /// Token is for private use.
    Private,
}

impl DeepView for CurrencyStatus {
    type V = CurrencyStatus;

    open spec fn deep_view(&self) -> CurrencyStatus {
        *self
    }
}

/// Kind of asset a token is anchored to, matched caselessly.
#[derive(Debug, Clone, Copy, PartialEq, Eq, Structural)]
pub enum AnchoredCurrencyType {
    /// Fiat currency.
    Fiat,
    /// Crypto currency.
    Crypto,
    /// Stock.
    Stock,
    /// Bond.
    Bond,
    /// Commodity.
    Commodity,
    /// Real estate.
    RealEstate,
    /// Other.
    Other,
}

impl DeepView for AnchoredCurrencyType {
    type V = AnchoredCurrencyType;

    open spec fn deep_view(&self) -> AnchoredCurrencyType {
        *self
    }
}

/// The status tag denoted by `s`, up to ASCII case.
pub open spec fn spec_status_of(s: Seq<char>) -> Option<CurrencyStatus> {
    if ascii_eq(s, "live"@) {
        Some(CurrencyStatus::Live)
    } else if ascii_eq(s, "dead"@) {
        Some(CurrencyStatus::Dead)
    } else if ascii_eq(s, "test"@) {
        Some(CurrencyStatus::Test)
    } else if ascii_eq(s, "private"@) {
        Some(CurrencyStatus::Private)
    } else {
        None
    }
}

/// Matches a status tag caselessly against the listed tag names.
pub fn status_of(s: &str) -> (r: Option<CurrencyStatus>)
    ensures
        r == spec_status_of(s@),
{
    if eq_ignore_case(s, "live") {
        Some(CurrencyStatus::Live)
    } else if eq_ignore_case(s, "dead") {
        Some(CurrencyStatus::Dead)
    } else if eq_ignore_case(s, "test") {
        Some(CurrencyStatus::Test)
    } else if eq_ignore_case(s, "private") {
        Some(CurrencyStatus::Private)
    } else {
        None
    }
}

/// The anchor-type tag denoted by `s`, up to ASCII case.
pub open spec fn spec_anchor_of(s: Seq<char>) -> Option<AnchoredCurrencyType> {
    if ascii_eq(s, "fiat"@) {
        Some(AnchoredCurrencyType::Fiat)
    } else if ascii_eq(s, "crypto"@) {
        Some(AnchoredCurrencyType::Crypto)
    } else if ascii_eq(s, "stock"@) {
        Some(AnchoredCurrencyType::Stock)
    } else if ascii_eq(s, "bond"@) {
        Some(AnchoredCurrencyType::Bond)
    } else if ascii_eq(s, "commodity"@) {
        Some(AnchoredCurrencyType::Commodity)
    } else if ascii_eq(s, "realestate"@) {
        Some(AnchoredCurrencyType::RealEstate)
    } else if ascii_eq(s, "other"@) {
        Some(AnchoredCurrencyType::Other)
    } else {
        None
    }
}

/// Matches an anchor-type tag caselessly against the listed tag names.
pub fn anchor_of(s: &str) -> (r: Option<AnchoredCurrencyType>)
    ensures
        r == spec_anchor_of(s@),
{
    if eq_ignore_case(s, "fiat") {
        Some(AnchoredCurrencyType::Fiat)
    } else if eq_ignore_case(s, "crypto") {
        Some(AnchoredCurrencyType::Crypto)
    } else if eq_ignore_case(s, "stock") {
        Some(AnchoredCurrencyType::Stock)
    } else if eq_ignore_case(s, "bond") {
        Some(AnchoredCurrencyType::Bond)
    } else if eq_ignore_case(s, "commodity") {
        Some(AnchoredCurrencyType::Commodity)
    } else if eq_ignore_case(s, "realestate") {
        Some(AnchoredCurrencyType::RealEstate)
    } else if eq_ignore_case(s, "other") {
        Some(AnchoredCurrencyType::Other)
    } else {
        None
    }
}

/// Whether the field binds as an optional status tag.
pub open spec fn status_ok(t: Seq<(String, DocValue)>, k1: Seq<char>, k2: Seq<char>) -> bool {
    match spec_find(t, k1, k2) {
        None => true,
        Some(DocValue::Text(s)) => spec_status_of(s@) is Some,
        Some(_) => false,
    }
}

/// The bound optional status tag of the field.
pub open spec fn status_val(t: Seq<(String, DocValue)>, k1: Seq<char>, k2: Seq<char>) -> Option<
    CurrencyStatus,
> {
    match spec_find(t, k1, k2) {
        Some(DocValue::Text(s)) => spec_status_of(s@),
        _ => None,
    }
}

/// Binds an optional status-tag field.
pub fn get_status(t: &Vec<(String, DocValue)>, k1: &str, k2: &str, path: &str) -> (r: Result<
    Option<CurrencyStatus>,
    Error,
>)
    ensures
        r is Ok <==> status_ok(t@, k1@, k2@),
        r is Ok ==> r.unwrap() == status_val(t@, k1@, k2@),
        r is Err ==> r.unwrap_err().deep_view() == fderr(path@),
{
    match find_field(t, k1, k2) {
        None => Ok(None),
        Some(DocValue::Text(s)) => match status_of(s.as_str()) {
            Some(v) => Ok(Some(v)),
            None => Err(Error::FieldDecodingError { path: path.to_owned() }),
        },
        Some(_) => Err(Error::FieldDecodingError { path: path.to_owned() }),
    }
}

/// Whether the field binds as an optional anchor-type tag.
pub open spec fn anchor_ok(t: Seq<(String, DocValue)>, k1: Seq<char>, k2: Seq<char>) -> bool {
    match spec_find(t, k1, k2) {
        None => true,
        Some(DocValue::Text(s)) => spec_anchor_of(s@) is Some,
        Some(_) => false,
    }
}

/// The bound optional anchor-type tag of the field.
pub open spec fn anchor_val(t: Seq<(String, DocValue)>, k1: Seq<char>, k2: Seq<char>) -> Option<
    AnchoredCurrencyType,
> {
    match spec_find(t, k1, k2) {
        Some(DocValue::Text(s)) => spec_anchor_of(s@),
        _ => None,
    }
}

/// Binds an optional anchor-type-tag field.
pub fn get_anchor(t: &Vec<(String, DocValue)>, k1: &str, k2: &str, path: &str) -> (r: Result<
    Option<AnchoredCurrencyType>,
    Error,
>)
    ensures
        r is Ok <==> anchor_ok(t@, k1@, k2@),
        r is Ok ==> r.unwrap() == anchor_val(t@, k1@, k2@),
        r is Err ==> r.unwrap_err().deep_view() == fderr(path@),
{
    match find_field(t, k1, k2) {
        None => Ok(None),
        Some(DocValue::Text(s)) => match anchor_of(s.as_str()) {
            Some(v) => Ok(Some(v)),
            None => Err(Error::FieldDecodingError { path: path.to_owned() }),
        },
        Some(_) => Err(Error::FieldDecodingError { path: path.to_owned() }),
    }
}

// ---------------------------------------------------------------------------
// Entities
// ---------------------------------------------------------------------------

/// Information about an organization validator node.
#[derive(Debug, Clone)]
pub struct Validator {
    /// A name for display in node configurations.
    pub alias: Option<String>,
    /// A human-readable name for display in quorum explorers.
    pub display_name: Option<String>,
    /// The account associated with the node.
    pub public_key: Option<AccountKey>,
    /// The IP:port or domain:port peers can use to connect to the node.
    pub host: Option<String>,
    /// The location of the history archive published by this validator.
    pub history: Option<NetAddress>,
}

/// Spec-level shape of [`Validator`], field for field over views.
pub struct ValidatorV {
    pub alias: Option<Seq<char>>,
    pub display_name: Option<Seq<char>>,
    pub public_key: Option<Seq<char>>,
    pub host: Option<Seq<char>>,
    pub history: Option<Seq<char>>,
}

impl DeepView for Validator {
    type V = ValidatorV;

    open spec fn deep_view(&self) -> ValidatorV {
        ValidatorV {
            alias: self.alias.deep_view(),
            display_name: self.display_name.deep_view(),
            public_key: opt_text_view(self.public_key),
            host: self.host.deep_view(),
            history: opt_text_view(self.history),
        }
    }
}

/// Whether every field of the entity binds cleanly from table `t`.
pub open spec fn spec_validator_ok(t: Seq<(String, DocValue)>) -> bool {
    &&& str_ok(t, "alias"@, "ALIAS"@)
    &&& str_ok(t, "display_name"@, "DISPLAY_NAME"@)
    &&& rich_ok::<AccountKey>(t, "public_key"@, "PUBLIC_KEY"@)
    &&& str_ok(t, "host"@, "HOST"@)
    &&& rich_ok::<NetAddress>(t, "history"@, "HISTORY"@)
}

/// The entity bound from table `t`, where every field binds cleanly.
pub open spec fn spec_validator_val(t: Seq<(String, DocValue)>) -> ValidatorV {
    ValidatorV {
        alias: str_val(t, "alias"@, "ALIAS"@),
        display_name: str_val(t, "display_name"@, "DISPLAY_NAME"@),
        public_key: rich_val::<AccountKey>(t, "public_key"@, "PUBLIC_KEY"@),
        host: str_val(t, "host"@, "HOST"@),
        history: rich_val::<NetAddress>(t, "history"@, "HISTORY"@),
    }
}

/// Whether `e` is the error of the first field of `t` that fails to bind.
pub open spec fn spec_validator_err(t: Seq<(String, DocValue)>, e: ErrorV) -> bool {
    if !str_ok(t, "alias"@, "ALIAS"@) {
        e == fderr("validators.alias"@)
    } else if !str_ok(t, "display_name"@, "DISPLAY_NAME"@) {
        e == fderr("validators.display_name"@)
    } else if !rich_ok::<AccountKey>(t, "public_key"@, "PUBLIC_KEY"@) {
        e == fderr("validators.public_key"@)
    } else if !str_ok(t, "host"@, "HOST"@) {
        e == fderr("validators.host"@)
    } else if !rich_ok::<NetAddress>(t, "history"@, "HISTORY"@) {
        e == fderr("validators.history"@)
    } else {
        false
    }
}

/// Binds one Validator from a decoded table, resolving aliases and coercing
/// rich values; the first field that fails to bind is the error.
pub fn bind_validator(t: &Vec<(String, DocValue)>) -> (r: Result<Validator, Error>)
    ensures
        r is Ok <==> spec_validator_ok(t@),
        r is Ok ==> r.unwrap().deep_view() == spec_validator_val(t@),
        r is Err ==> spec_validator_err(t@, r.unwrap_err().deep_view()),
{
    let alias = match get_str(t, "alias", "ALIAS", "validators.alias") {
        Ok(v) => v,
        Err(e) => return Err(e),
    };
    let display_name = match get_str(t, "display_name", "DISPLAY_NAME", "validators.display_name") {
        Ok(v) => v,
        Err(e) => return Err(e),
    };
    let public_key = match get_rich::<AccountKey>(t, "public_key", "PUBLIC_KEY", "validators.public_key") {
        Ok(v) => v,
        Err(e) => return Err(e),
    };
    let host = match get_str(t, "host", "HOST", "validators.host") {
        Ok(v) => v,
        Err(e) => return Err(e),
    };
    let history = match get_rich::<NetAddress>(t, "history", "HISTORY", "validators.history") {
        Ok(v) => v,
        Err(e) => return Err(e),
    };
    Ok(Validator { alias, display_name, public_key, host, history })
}

/// Identifying information for a principal of the organization.
#[derive(Debug, Clone)]
pub struct PointOfContact {
    /// Full legal name.
    pub name: Option<String>,
    /// Business email address for the principal.
    pub email: Option<String>,
    /// Personal Keybase account.
    pub keybase: Option<String>,
    /// Personal Telegram account.
    pub telegram: Option<String>,
    /// Personal Twitter account.
    pub twitter: Option<String>,
    /// Personal Github account.
    pub github: Option<String>,
    /// Hash of a photo of the principal's government-issued photo ID.
    pub id_photo_hash: Option<String>,
    /// Hash of a verification photo of the principal.
    pub verification_photo_hash: Option<String>,
}

/// Spec-level shape of [`PointOfContact`], field for field over views.
pub struct PointOfContactV {
    pub name: Option<Seq<char>>,
    pub email: Option<Seq<char>>,
    pub keybase: Option<Seq<char>>,
    pub telegram: Option<Seq<char>>,
    pub twitter: Option<Seq<char>>,
    pub github: Option<Seq<char>>,
    pub id_photo_hash: Option<Seq<char>>,
    pub verification_photo_hash: Option<Seq<char>>,
}

impl DeepView for PointOfContact {
    type V = PointOfContactV;

    open spec fn deep_view(&self) -> PointOfContactV {
        PointOfContactV {
            name: self.name.deep_view(),
            email: self.email.deep_view(),
            keybase: self.keybase.deep_view(),
            telegram: self.telegram.deep_view(),
            twitter: self.twitter.deep_view(),
            github: self.github.deep_view(),
            id_photo_hash: self.id_photo_hash.deep_view(),
            verification_photo_hash: self.verification_photo_hash.deep_view(),
        }
    }
}

/// Whether every field of the entity binds cleanly from table `t`.
pub open spec fn spec_point_of_contact_ok(t: Seq<(String, DocValue)>) -> bool {
    &&& str_ok(t, "name"@, "NAME"@)
    &&& str_ok(t, "email"@, "EMAIL"@)
    &&& str_ok(t, "keybase"@, "KEYBASE"@)
    &&& str_ok(t, "telegram"@, "TELEGRAM"@)
    &&& str_ok(t, "twitter"@, "TWITTER"@)
    &&& str_ok(t, "github"@, "GITHUB"@)
    &&& str_ok(t, "id_photo_hash"@, "ID_PHOTO_HASH"@)
    &&& str_ok(t, "verification_photo_hash"@, "VERIFICATION_PHOTO_HASH"@)
}

/// The entity bound from table `t`, where every field binds cleanly.
pub open spec fn spec_point_of_contact_val(t: Seq<(String, DocValue)>) -> PointOfContactV {
    PointOfContactV {
        name: str_val(t, "name"@, "NAME"@),
        email: str_val(t, "email"@, "EMAIL"@),
        keybase: str_val(t, "keybase"@, "KEYBASE"@),
        telegram: str_val(t, "telegram"@, "TELEGRAM"@),
        twitter: str_val(t, "twitter"@, "TWITTER"@),
        github: str_val(t, "github"@, "GITHUB"@),
        id_photo_hash: str_val(t, "id_photo_hash"@, "ID_PHOTO_HASH"@),
        verification_photo_hash: str_val(t, "verification_photo_hash"@, "VERIFICATION_PHOTO_HASH"@),
    }
}

/// Whether `e` is the error of the first field of `t` that fails to bind.
pub open spec fn spec_point_of_contact_err(t: Seq<(String, DocValue)>, e: ErrorV) -> bool {
    if !str_ok(t, "name"@, "NAME"@) {
        e == fderr("principals.name"@)
    } else if !str_ok(t, "email"@, "EMAIL"@) {
        e == fderr("principals.email"@)
    } else if !str_ok(t, "keybase"@, "KEYBASE"@) {
        e == fderr("principals.keybase"@)
    } else if !str_ok(t, "telegram"@, "TELEGRAM"@) {
        e == fderr("principals.telegram"@)
    } else if !str_ok(t, "twitter"@, "TWITTER"@) {
        e == fderr("principals.twitter"@)
    } else if !str_ok(t, "github"@, "GITHUB"@) {
        e == fderr("principals.github"@)
    } else if !str_ok(t, "id_photo_hash"@, "ID_PHOTO_HASH"@) {
        e == fderr("principals.id_photo_hash"@)
    } else if !str_ok(t, "verification_photo_hash"@, "VERIFICATION_PHOTO_HASH"@) {
        e == fderr("principals.verification_photo_hash"@)
    } else {
        false
    }
}

/// Binds one PointOfContact from a decoded table, resolving aliases and coercing
/// rich values; the first field that fails to bind is the error.
pub fn bind_point_of_contact(t: &Vec<(String, DocValue)>) -> (r: Result<PointOfContact, Error>)
    ensures
        r is Ok <==> spec_point_of_contact_ok(t@),
        r is Ok ==> r.unwrap().deep_view() == spec_point_of_contact_val(t@),
        r is Err ==> spec_point_of_contact_err(t@, r.unwrap_err().deep_view()),
{
    let name = match get_str(t, "name", "NAME", "principals.name") {
        Ok(v) => v,
        Err(e) => return Err(e),
    };
    let email = match get_str(t, "email", "EMAIL", "principals.email") {
        Ok(v) => v,
        Err(e) => return Err(e),
    };
    let keybase = match get_str(t, "keybase", "KEYBASE", "principals.keybase") {
        Ok(v) => v,
        Err(e) => return Err(e),
    };
    let telegram = match get_str(t, "telegram", "TELEGRAM", "principals.telegram") {
        Ok(v) => v,
        Err(e) => return Err(e),
    };
    let twitter = match get_str(t, "twitter", "TWITTER", "principals.twitter") {
        Ok(v) => v,
        Err(e) => return Err(e),
    };
    let github = match get_str(t, "github", "GITHUB", "principals.github") {
        Ok(v) => v,
        Err(e) => return Err(e),
    };
    let id_photo_hash = match get_str(t, "id_photo_hash", "ID_PHOTO_HASH", "principals.id_photo_hash") {
        Ok(v) => v,
        Err(e) => return Err(e),
    };
    let verification_photo_hash = match get_str(t, "verification_photo_hash", "VERIFICATION_PHOTO_HASH", "principals.verification_photo_hash") {
        Ok(v) => v,
        Err(e) => return Err(e),
    };
    Ok(PointOfContact { name, email, keybase, telegram, twitter, github, id_photo_hash, verification_photo_hash })
}

/// Information about the organization itself.
#[derive(Debug, Clone)]
pub struct Documentation {
    /// Legal name of the organization.
    pub org_name: Option<String>,
    /// Trade name of the organization, where one applies.
    pub org_dba: Option<String>,
    /// The organization's official address.
    pub org_url: Option<NetAddress>,
    /// Address of an image of the organization's logo.
    pub org_logo: Option<NetAddress>,
    /// Short description of the organization.
    pub org_description: Option<String>,
    /// Physical address of the organization.
    pub org_physical_address: Option<String>,
    /// Address of an official document attesting to the physical address.
    pub org_physical_address_attestation: Option<NetAddress>,
    /// The organization's phone number.
    pub org_phone_number: Option<String>,
    /// Address of an image of a phone bill showing the phone number.
    pub org_phone_number_attestation: Option<NetAddress>,
    /// A Keybase account name for the organization.
    pub org_keybase: Option<String>,
    /// The organization's Twitter account.
    pub org_twitter: Option<String>,
    /// The organization's Github account.
    pub org_github: Option<String>,
    /// An email where clients can contact the organization.
    pub org_official_email: Option<String>,
    /// Name of the authority that licensed the organization, if any.
    pub org_licensing_authority: Option<String>,
    /// Type of license the organization holds, if any.
    pub org_license_type: Option<String>,
    /// Official license number of the organization, if any.
    pub org_license_number: Option<String>,
}

/// Spec-level shape of [`Documentation`], field for field over views.
pub struct DocumentationV {
    pub org_name: Option<Seq<char>>,
    pub org_dba: Option<Seq<char>>,
    pub org_url: Option<Seq<char>>,
    pub org_logo: Option<Seq<char>>,
    pub org_description: Option<Seq<char>>,
    pub org_physical_address: Option<Seq<char>>,
    pub org_physical_address_attestation: Option<Seq<char>>,
    pub org_phone_number: Option<Seq<char>>,
    pub org_phone_number_attestation: Option<Seq<char>>,
    pub org_keybase: Option<Seq<char>>,
    pub org_twitter: Option<Seq<char>>,
    pub org_github: Option<Seq<char>>,
    pub org_official_email: Option<Seq<char>>,
    pub org_licensing_authority: Option<Seq<char>>,
    pub org_license_type: Option<Seq<char>>,
    pub org_license_number: Option<Seq<char>>,
}

impl DeepView for Documentation {
    type V = DocumentationV;

    open spec fn deep_view(&self) -> DocumentationV {
        DocumentationV {
            org_name: self.org_name.deep_view(),
            org_dba: self.org_dba.deep_view(),
            org_url: opt_text_view(self.org_url),
            org_logo: opt_text_view(self.org_logo),
            org_description: self.org_description.deep_view(),
            org_physical_address: self.org_physical_address.deep_view(),
            org_physical_address_attestation: opt_text_view(self.org_physical_address_attestation),
            org_phone_number: self.org_phone_number.deep_view(),
            org_phone_number_attestation: opt_text_view(self.org_phone_number_attestation),
            org_keybase: self.org_keybase.deep_view(),
            org_twitter: self.org_twitter.deep_view(),
            org_github: self.org_github.deep_view(),
            org_official_email: self.org_official_email.deep_view(),
            org_licensing_authority: self.org_licensing_authority.deep_view(),
            org_license_type: self.org_license_type.deep_view(),
            org_license_number: self.org_license_number.deep_view(),
        }
    }
}

/// Whether every field of the entity binds cleanly from table `t`.
pub open spec fn spec_documentation_ok(t: Seq<(String, DocValue)>) -> bool {
    &&& str_ok(t, "org_name"@, "ORG_NAME"@)
    &&& str_ok(t, "org_dba"@, "ORG_DBA"@)
    &&& rich_ok::<NetAddress>(t, "org_url"@, "ORG_URL"@)
    &&& rich_ok::<NetAddress>(t, "org_logo"@, "ORG_LOGO"@)
    &&& str_ok(t, "org_description"@, "ORG_DESCRIPTION"@)
    &&& str_ok(t, "org_physical_address"@, "ORG_PHYSICAL_ADDRESS"@)
    &&& rich_ok::<NetAddress>(t, "org_physical_address_attestation"@, "ORG_PHYSICAL_ADDRESS_ATTESTATION"@)
    &&& str_ok(t, "org_phone_number"@, "ORG_PHONE_NUMBER"@)
    &&& rich_ok::<NetAddress>(t, "org_phone_number_attestation"@, "ORG_PHONE_NUMBER_ATTESTIATION"@)
    &&& str_ok(t, "org_keybase"@, "ORG_KEYBASE"@)
    &&& str_ok(t, "org_twitter"@, "ORG_TWITTER"@)
    &&& str_ok(t, "org_github"@, "ORG_GITHUB"@)
    &&& str_ok(t, "org_official_email"@, "ORG_OFFICIAL_EMAIL"@)
    &&& str_ok(t, "org_licensing_authority"@, "ORG_LICENSING_AUTHORITY"@)
    &&& str_ok(t, "org_license_type"@, "ORG_LICENSE_TYPE"@)
    &&& str_ok(t, "org_license_number"@, "ORG_LICENSE_NUMBER"@)
}

/// The entity bound from table `t`, where every field binds cleanly.
pub open spec fn spec_documentation_val(t: Seq<(String, DocValue)>) -> DocumentationV {
    DocumentationV {
        org_name: str_val(t, "org_name"@, "ORG_NAME"@),
        org_dba: str_val(t, "org_dba"@, "ORG_DBA"@),
        org_url: rich_val::<NetAddress>(t, "org_url"@, "ORG_URL"@),
        org_logo: rich_val::<NetAddress>(t, "org_logo"@, "ORG_LOGO"@),
        org_description: str_val(t, "org_description"@, "ORG_DESCRIPTION"@),
        org_physical_address: str_val(t, "org_physical_address"@, "ORG_PHYSICAL_ADDRESS"@),
        org_physical_address_attestation: rich_val::<NetAddress>(t, "org_physical_address_attestation"@, "ORG_PHYSICAL_ADDRESS_ATTESTATION"@),
        org_phone_number: str_val(t, "org_phone_number"@, "ORG_PHONE_NUMBER"@),
        org_phone_number_attestation: rich_val::<NetAddress>(t, "org_phone_number_attestation"@, "ORG_PHONE_NUMBER_ATTESTIATION"@),
        org_keybase: str_val(t, "org_keybase"@, "ORG_KEYBASE"@),
        org_twitter: str_val(t, "org_twitter"@, "ORG_TWITTER"@),
        org_github: str_val(t, "org_github"@, "ORG_GITHUB"@),
        org_official_email: str_val(t, "org_official_email"@, "ORG_OFFICIAL_EMAIL"@),
        org_licensing_authority: str_val(t, "org_licensing_authority"@, "ORG_LICENSING_AUTHORITY"@),
        org_license_type: str_val(t, "org_license_type"@, "ORG_LICENSE_TYPE"@),
        org_license_number: str_val(t, "org_license_number"@, "ORG_LICENSE_NUMBER"@),
    }
}

/// Whether `e` is the error of the first field of `t` that fails to bind.
pub open spec fn spec_documentation_err(t: Seq<(String, DocValue)>, e: ErrorV) -> bool {
    if !str_ok(t, "org_name"@, "ORG_NAME"@) {
        e == fderr("documentation.org_name"@)
    } else if !str_ok(t, "org_dba"@, "ORG_DBA"@) {
        e == fderr("documentation.org_dba"@)
    } else if !rich_ok::<NetAddress>(t, "org_url"@, "ORG_URL"@) {
        e == fderr("documentation.org_url"@)
    } else if !rich_ok::<NetAddress>(t, "org_logo"@, "ORG_LOGO"@) {
        e == fderr("documentation.org_logo"@)
    } else if !str_ok(t, "org_description"@, "ORG_DESCRIPTION"@) {
        e == fderr("documentation.org_description"@)
    } else if !str_ok(t, "org_physical_address"@, "ORG_PHYSICAL_ADDRESS"@) {
        e == fderr("documentation.org_physical_address"@)
    } else if !rich_ok::<NetAddress>(t, "org_physical_address_attestation"@, "ORG_PHYSICAL_ADDRESS_ATTESTATION"@) {
        e == fderr("documentation.org_physical_address_attestation"@)
    } else if !str_ok(t, "org_phone_number"@, "ORG_PHONE_NUMBER"@) {
        e == fderr("documentation.org_phone_number"@)
    } else if !rich_ok::<NetAddress>(t, "org_phone_number_attestation"@, "ORG_PHONE_NUMBER_ATTESTIATION"@) {
        e == fderr("documentation.org_phone_number_attestation"@)
    } else if !str_ok(t, "org_keybase"@, "ORG_KEYBASE"@) {
        e == fderr("documentation.org_keybase"@)
    } else if !str_ok(t, "org_twitter"@, "ORG_TWITTER"@) {
        e == fderr("documentation.org_twitter"@)
    } else if !str_ok(t, "org_github"@, "ORG_GITHUB"@) {
        e == fderr("documentation.org_github"@)
    } else if !str_ok(t, "org_official_email"@, "ORG_OFFICIAL_EMAIL"@) {
        e == fderr("documentation.org_official_email"@)
    } else if !str_ok(t, "org_licensing_authority"@, "ORG_LICENSING_AUTHORITY"@) {
        e == fderr("documentation.org_licensing_authority"@)
    } else if !str_ok(t, "org_license_type"@, "ORG_LICENSE_TYPE"@) {
        e == fderr("documentation.org_license_type"@)
    } else if !str_ok(t, "org_license_number"@, "ORG_LICENSE_NUMBER"@) {
        e == fderr("documentation.org_license_number"@)
    } else {
        false
    }
}

/// Binds one Documentation from a decoded table, resolving aliases and coercing
/// rich values; the first field that fails to bind is the error.
pub fn bind_documentation(t: &Vec<(String, DocValue)>) -> (r: Result<Documentation, Error>)
    ensures
        r is Ok <==> spec_documentation_ok(t@),
        r is Ok ==> r.unwrap().deep_view() == spec_documentation_val(t@),
        r is Err ==> spec_documentation_err(t@, r.unwrap_err().deep_view()),
{
    let org_name = match get_str(t, "org_name", "ORG_NAME", "documentation.org_name") {
        Ok(v) => v,
        Err(e) => return Err(e),
    };
    let org_dba = match get_str(t, "org_dba", "ORG_DBA", "documentation.org_dba") {
        Ok(v) => v,
        Err(e) => return Err(e),
    };
    let org_url = match get_rich::<NetAddress>(t, "org_url", "ORG_URL", "documentation.org_url") {
        Ok(v) => v,
        Err(e) => return Err(e),
    };
    let org_logo = match get_rich::<NetAddress>(t, "org_logo", "ORG_LOGO", "documentation.org_logo") {
        Ok(v) => v,
        Err(e) => return Err(e),
    };
    let org_description = match get_str(t, "org_description", "ORG_DESCRIPTION", "documentation.org_description") {
        Ok(v) => v,
        Err(e) => return Err(e),
    };
    let org_physical_address = match get_str(t, "org_physical_address", "ORG_PHYSICAL_ADDRESS", "documentation.org_physical_address") {
        Ok(v) => v,
        Err(e) => return Err(e),
    };
    let org_physical_address_attestation = match get_rich::<NetAddress>(t, "org_physical_address_attestation", "ORG_PHYSICAL_ADDRESS_ATTESTATION", "documentation.org_physical_address_attestation") {
        Ok(v) => v,
        Err(e) => return Err(e),
    };
    let org_phone_number = match get_str(t, "org_phone_number", "ORG_PHONE_NUMBER", "documentation.org_phone_number") {
        Ok(v) => v,
        Err(e) => return Err(e),
    };
    let org_phone_number_attestation = match get_rich::<NetAddress>(t, "org_phone_number_attestation", "ORG_PHONE_NUMBER_ATTESTIATION", "documentation.org_phone_number_attestation") {
        Ok(v) => v,
        Err(e) => return Err(e),
    };
    let org_keybase = match get_str(t, "org_keybase", "ORG_KEYBASE", "documentation.org_keybase") {
        Ok(v) => v,
        Err(e) => return Err(e),
    };
    let org_twitter = match get_str(t, "org_twitter", "ORG_TWITTER", "documentation.org_twitter") {
        Ok(v) => v,
        Err(e) => return Err(e),
    };
    let org_github = match get_str(t, "org_github", "ORG_GITHUB", "documentation.org_github") {
        Ok(v) => v,
        Err(e) => return Err(e),
    };
    let org_official_email = match get_str(t, "org_official_email", "ORG_OFFICIAL_EMAIL", "documentation.org_official_email") {
        Ok(v) => v,
        Err(e) => return Err(e),
    };
    let org_licensing_authority = match get_str(t, "org_licensing_authority", "ORG_LICENSING_AUTHORITY", "documentation.org_licensing_authority") {
        Ok(v) => v,
        Err(e) => return Err(e),
    };
    let org_license_type = match get_str(t, "org_license_type", "ORG_LICENSE_TYPE", "documentation.org_license_type") {
        Ok(v) => v,
        Err(e) => return Err(e),
    };
    let org_license_number = match get_str(t, "org_license_number", "ORG_LICENSE_NUMBER", "documentation.org_license_number") {
        Ok(v) => v,
        Err(e) => return Err(e),
    };
    Ok(Documentation { org_name, org_dba, org_url, org_logo, org_description, org_physical_address, org_physical_address_attestation, org_phone_number, org_phone_number_attestation, org_keybase, org_twitter, org_github, org_official_email, org_licensing_authority, org_license_type, org_license_number })
}

/// Information about a currency supported by the organization.
#[derive(Debug, Clone)]
pub struct Currency {
    /// Token code.
    pub code: Option<String>,
    /// A pattern with `?` as a single-character wildcard.
    pub code_template: Option<String>,
    /// Token issuer public key.
    pub issuer: Option<AccountKey>,
    /// Status of the token: live, dead, for testing or for private use.
    pub status: Option<CurrencyStatus>,
    /// Preferred number of decimals when a client displays a balance.
    pub display_decimals: Option<u8>,
    /// A short name for the token.
    pub name: Option<String>,
    /// Description of the token and what it represents.
    pub description: Option<String>,
    /// Conditions on the token.
    pub conditions: Option<String>,
    /// Address of an image representing the token.
    pub image: Option<String>,
    /// Fixed number of tokens, where the issued number never changes.
    pub fixed_number: Option<i64>,
    /// Maximum number of tokens that will ever be issued.
    pub max_number: Option<i64>,
    /// Whether the number of tokens is dilutable at the issuer's discretion.
    pub is_unlimited: Option<bool>,
    /// Whether the token can be redeemed for an underlying asset.
    pub is_asset_anchored: Option<bool>,
    /// Kind of asset the token is anchored to.
    pub anchor_asset_type: Option<AnchoredCurrencyType>,
    /// Code or symbol of the asset the token is anchored to.
    pub anchor_asset: Option<String>,
    /// Instructions to redeem the underlying asset from tokens.
    pub redemption_instructions: Option<String>,
    /// Public addresses holding the assets the tokens are issued against.
    pub collateral_addresses: Vec<String>,
    /// Messages stating that the collateral funds are reserved.
    pub collateral_address_messages: Vec<String>,
    /// Signatures proving control of the collateral addresses.
    pub collateral_address_signatures: Vec<String>,
    /// Whether this is a regulated asset; absence means it is not.
    pub regulated: Option<bool>,
    /// Address of an approval service that signs validated transactions.
    pub approval_server: Option<NetAddress>,
    /// The issuer's requirements for approving transactions.
    pub approval_criteria: Option<String>,
}

/// Spec-level shape of [`Currency`], field for field over views.
pub struct CurrencyV {
    pub code: Option<Seq<char>>,
    pub code_template: Option<Seq<char>>,
    pub issuer: Option<Seq<char>>,
    pub status: Option<CurrencyStatus>,
    pub display_decimals: Option<u8>,
    pub name: Option<Seq<char>>,
    pub description: Option<Seq<char>>,
    pub conditions: Option<Seq<char>>,
    pub image: Option<Seq<char>>,
    pub fixed_number: Option<i64>,
    pub max_number: Option<i64>,
    pub is_unlimited: Option<bool>,
    pub is_asset_anchored: Option<bool>,
    pub anchor_asset_type: Option<AnchoredCurrencyType>,
    pub anchor_asset: Option<Seq<char>>,
    pub redemption_instructions: Option<Seq<char>>,
    pub collateral_addresses: Seq<Seq<char>>,
    pub collateral_address_messages: Seq<Seq<char>>,
    pub collateral_address_signatures: Seq<Seq<char>>,
    pub regulated: Option<bool>,
    pub approval_server: Option<Seq<char>>,
    pub approval_criteria: Option<Seq<char>>,
}

impl DeepView for Currency {
    type V = CurrencyV;

    open spec fn deep_view(&self) -> CurrencyV {
        CurrencyV {
            code: self.code.deep_view(),
            code_template: self.code_template.deep_view(),
            issuer: opt_text_view(self.issuer),
            status: self.status.deep_view(),
            display_decimals: self.display_decimals.deep_view(),
            name: self.name.deep_view(),
            description: self.description.deep_view(),
            conditions: self.conditions.deep_view(),
            image: self.image.deep_view(),
            fixed_number: self.fixed_number.deep_view(),
            max_number: self.max_number.deep_view(),
            is_unlimited: self.is_unlimited.deep_view(),
            is_asset_anchored: self.is_asset_anchored.deep_view(),
            anchor_asset_type: self.anchor_asset_type.deep_view(),
            anchor_asset: self.anchor_asset.deep_view(),
            redemption_instructions: self.redemption_instructions.deep_view(),
            collateral_addresses: self.collateral_addresses.deep_view(),
            collateral_address_messages: self.collateral_address_messages.deep_view(),
            collateral_address_signatures: self.collateral_address_signatures.deep_view(),
            regulated: self.regulated.deep_view(),
            approval_server: opt_text_view(self.approval_server),
            approval_criteria: self.approval_criteria.deep_view(),
        }
    }
}

/// Whether every field of the entity binds cleanly from table `t`.
pub open spec fn spec_currency_ok(t: Seq<(String, DocValue)>) -> bool {
    &&& str_ok(t, "code"@, "CODE"@)
    &&& str_ok(t, "code_template"@, "CODE_TEMPLATE"@)
    &&& rich_ok::<AccountKey>(t, "issuer"@, "ISSUER"@)
    &&& status_ok(t, "status"@, "STATUS"@)
    &&& u8_ok(t, "display_decimals"@, "DISPLAY_DECIMALS"@)
    &&& str_ok(t, "name"@, "NAME"@)
    &&& str_ok(t, "desc"@, "DESC"@)
    &&& str_ok(t, "conditions"@, "CONDITIONS"@)
    &&& str_ok(t, "image"@, "IMAGE"@)
    &&& i64_ok(t, "fixed_number"@, "FIXED_NUMBER"@)
    &&& i64_ok(t, "max_number"@, "MAX_NUMBER"@)
    &&& bool_ok(t, "is_unlimited"@, "IS_UNLIMITED"@)
    &&& bool_ok(t, "is_asset_anchored"@, "IS_ASSET_ANCHORED"@)
    &&& anchor_ok(t, "anchor_asset_type"@, "ANCHOR_ASSET_TYPE"@)
    &&& str_ok(t, "anchor_asset"@, "ANCHOR_ASSET"@)
    &&& str_ok(t, "redemption_instructions"@, "REDEMPTION_INSTRUCTIONS"@)
    &&& str_seq_ok(t, "collateral_addresses"@, "COLLATERAL_ADDRESSES"@)
    &&& str_seq_ok(t, "collateral_address_messages"@, "COLLATERAL_ADDRESS_MESSAGES"@)
    &&& str_seq_ok(t, "collateral_address_signatures"@, "COLLATERAL_ADDRESS_SIGNATURES"@)
    &&& bool_ok(t, "regulated"@, "REGULATED"@)
    &&& rich_ok::<NetAddress>(t, "approval_server"@, "APPROVAL_SERVER"@)
    &&& str_ok(t, "approval_criteria"@, "APPROVAL_CRITERIA"@)
}

/// The entity bound from table `t`, where every field binds cleanly.
pub open spec fn spec_currency_val(t: Seq<(String, DocValue)>) -> CurrencyV {
    CurrencyV {
        code: str_val(t, "code"@, "CODE"@),
        code_template: str_val(t, "code_template"@, "CODE_TEMPLATE"@),
        issuer: rich_val::<AccountKey>(t, "issuer"@, "ISSUER"@),
        status: status_val(t, "status"@, "STATUS"@),
        display_decimals: u8_val(t, "display_decimals"@, "DISPLAY_DECIMALS"@),
        name: str_val(t, "name"@, "NAME"@),
        description: str_val(t, "desc"@, "DESC"@),
        conditions: str_val(t, "conditions"@, "CONDITIONS"@),
        image: str_val(t, "image"@, "IMAGE"@),
        fixed_number: i64_val(t, "fixed_number"@, "FIXED_NUMBER"@),
        max_number: i64_val(t, "max_number"@, "MAX_NUMBER"@),
        is_unlimited: bool_val(t, "is_unlimited"@, "IS_UNLIMITED"@),
        is_asset_anchored: bool_val(t, "is_asset_anchored"@, "IS_ASSET_ANCHORED"@),
        anchor_asset_type: anchor_val(t, "anchor_asset_type"@, "ANCHOR_ASSET_TYPE"@),
        anchor_asset: str_val(t, "anchor_asset"@, "ANCHOR_ASSET"@),
        redemption_instructions: str_val(t, "redemption_instructions"@, "REDEMPTION_INSTRUCTIONS"@),
        collateral_addresses: str_seq_val(t, "collateral_addresses"@, "COLLATERAL_ADDRESSES"@),
        collateral_address_messages: str_seq_val(t, "collateral_address_messages"@, "COLLATERAL_ADDRESS_MESSAGES"@),
        collateral_address_signatures: str_seq_val(t, "collateral_address_signatures"@, "COLLATERAL_ADDRESS_SIGNATURES"@),
        regulated: bool_val(t, "regulated"@, "REGULATED"@),
        approval_server: rich_val::<NetAddress>(t, "approval_server"@, "APPROVAL_SERVER"@),
        approval_criteria: str_val(t, "approval_criteria"@, "APPROVAL_CRITERIA"@),
    }
}

/// Whether `e` is the error of the first field of `t` that fails to bind.
pub open spec fn spec_currency_err(t: Seq<(String, DocValue)>, e: ErrorV) -> bool {
    if !str_ok(t, "code"@, "CODE"@) {
        e == fderr("currencies.code"@)
    } else if !str_ok(t, "code_template"@, "CODE_TEMPLATE"@) {
        e == fderr("currencies.code_template"@)
    } else if !rich_ok::<AccountKey>(t, "issuer"@, "ISSUER"@) {
        e == fderr("currencies.issuer"@)
    } else if !status_ok(t, "status"@, "STATUS"@) {
        e == fderr("currencies.status"@)
    } else if !u8_ok(t, "display_decimals"@, "DISPLAY_DECIMALS"@) {
        e == fderr("currencies.display_decimals"@)
    } else if !str_ok(t, "name"@, "NAME"@) {
        e == fderr("currencies.name"@)
    } else if !str_ok(t, "desc"@, "DESC"@) {
        e == fderr("currencies.description"@)
    } else if !str_ok(t, "conditions"@, "CONDITIONS"@) {
        e == fderr("currencies.conditions"@)
    } else if !str_ok(t, "image"@, "IMAGE"@) {
        e == fderr("currencies.image"@)
    } else if !i64_ok(t, "fixed_number"@, "FIXED_NUMBER"@) {
        e == fderr("currencies.fixed_number"@)
    } else if !i64_ok(t, "max_number"@, "MAX_NUMBER"@) {
        e == fderr("currencies.max_number"@)
    } else if !bool_ok(t, "is_unlimited"@, "IS_UNLIMITED"@) {
        e == fderr("currencies.is_unlimited"@)
    } else if !bool_ok(t, "is_asset_anchored"@, "IS_ASSET_ANCHORED"@) {
        e == fderr("currencies.is_asset_anchored"@)
    } else if !anchor_ok(t, "anchor_asset_type"@, "ANCHOR_ASSET_TYPE"@) {
        e == fderr("currencies.anchor_asset_type"@)
    } else if !str_ok(t, "anchor_asset"@, "ANCHOR_ASSET"@) {
        e == fderr("currencies.anchor_asset"@)
    } else if !str_ok(t, "redemption_instructions"@, "REDEMPTION_INSTRUCTIONS"@) {
        e == fderr("currencies.redemption_instructions"@)
    } else if !str_seq_ok(t, "collateral_addresses"@, "COLLATERAL_ADDRESSES"@) {
        e == fderr("currencies.collateral_addresses"@)
    } else if !str_seq_ok(t, "collateral_address_messages"@, "COLLATERAL_ADDRESS_MESSAGES"@) {
        e == fderr("currencies.collateral_address_messages"@)
    } else if !str_seq_ok(t, "collateral_address_signatures"@, "COLLATERAL_ADDRESS_SIGNATURES"@) {
        e == fderr("currencies.collateral_address_signatures"@)
    } else if !bool_ok(t, "regulated"@, "REGULATED"@) {
        e == fderr("currencies.regulated"@)
    } else if !rich_ok::<NetAddress>(t, "approval_server"@, "APPROVAL_SERVER"@) {
        e == fderr("currencies.approval_server"@)
    } else if !str_ok(t, "approval_criteria"@, "APPROVAL_CRITERIA"@) {
        e == fderr("currencies.approval_criteria"@)
    } else {
        false
    }
}

/// Binds one Currency from a decoded table, resolving aliases and coercing
/// rich values; the first field that fails to bind is the error.
pub fn bind_currency(t: &Vec<(String, DocValue)>) -> (r: Result<Currency, Error>)
    ensures
        r is Ok <==> spec_currency_ok(t@),
        r is Ok ==> r.unwrap().deep_view() == spec_currency_val(t@),
        r is Err ==> spec_currency_err(t@, r.unwrap_err().deep_view()),
{
    let code = match get_str(t, "code", "CODE", "currencies.code") {
        Ok(v) => v,
        Err(e) => return Err(e),
    };
    let code_template = match get_str(t, "code_template", "CODE_TEMPLATE", "currencies.code_template") {
        Ok(v) => v,
        Err(e) => return Err(e),
    };
    let issuer = match get_rich::<AccountKey>(t, "issuer", "ISSUER", "currencies.issuer") {
        Ok(v) => v,
        Err(e) => return Err(e),
    };
    let status = match get_status(t, "status", "STATUS", "currencies.status") {
        Ok(v) => v,
        Err(e) => return Err(e),
    };
    let display_decimals = match get_u8(t, "display_decimals", "DISPLAY_DECIMALS", "currencies.display_decimals") {
        Ok(v) => v,
        Err(e) => return Err(e),
    };
    let name = match get_str(t, "name", "NAME", "currencies.name") {
        Ok(v) => v,
        Err(e) => return Err(e),
    };
    let description = match get_str(t, "desc", "DESC", "currencies.description") {
        Ok(v) => v,
        Err(e) => return Err(e),
    };
    let conditions = match get_str(t, "conditions", "CONDITIONS", "currencies.conditions") {
        Ok(v) => v,
        Err(e) => return Err(e),
    };
    let image = match get_str(t, "image", "IMAGE", "currencies.image") {
        Ok(v) => v,
        Err(e) => return Err(e),
    };
    let fixed_number = match get_i64(t, "fixed_number", "FIXED_NUMBER", "currencies.fixed_number") {
        Ok(v) => v,
        Err(e) => return Err(e),
    };
    let max_number = match get_i64(t, "max_number", "MAX_NUMBER", "currencies.max_number") {
        Ok(v) => v,
        Err(e) => return Err(e),
    };
    let is_unlimited = match get_bool(t, "is_unlimited", "IS_UNLIMITED", "currencies.is_unlimited") {
        Ok(v) => v,
        Err(e) => return Err(e),
    };
    let is_asset_anchored = match get_bool(t, "is_asset_anchored", "IS_ASSET_ANCHORED", "currencies.is_asset_anchored") {
        Ok(v) => v,
        Err(e) => return Err(e),
    };
    let anchor_asset_type = match get_anchor(t, "anchor_asset_type", "ANCHOR_ASSET_TYPE", "currencies.anchor_asset_type") {
        Ok(v) => v,
        Err(e) => return Err(e),
    };
    let anchor_asset = match get_str(t, "anchor_asset", "ANCHOR_ASSET", "currencies.anchor_asset") {
        Ok(v) => v,
        Err(e) => return Err(e),
    };
    let redemption_instructions = match get_str(t, "redemption_instructions", "REDEMPTION_INSTRUCTIONS", "currencies.redemption_instructions") {
        Ok(v) => v,
        Err(e) => return Err(e),
    };
    let collateral_addresses = match get_str_seq(t, "collateral_addresses", "COLLATERAL_ADDRESSES", "currencies.collateral_addresses") {
        Ok(v) => v,
        Err(e) => return Err(e),
    };
    let collateral_address_messages = match get_str_seq(t, "collateral_address_messages", "COLLATERAL_ADDRESS_MESSAGES", "currencies.collateral_address_messages") {
        Ok(v) => v,
        Err(e) => return Err(e),
    };
    let collateral_address_signatures = match get_str_seq(t, "collateral_address_signatures", "COLLATERAL_ADDRESS_SIGNATURES", "currencies.collateral_address_signatures") {
        Ok(v) => v,
        Err(e) => return Err(e),
    };
    let regulated = match get_bool(t, "regulated", "REGULATED", "currencies.regulated") {
        Ok(v) => v,
        Err(e) => return Err(e),
    };
    let approval_server = match get_rich::<NetAddress>(t, "approval_server", "APPROVAL_SERVER", "currencies.approval_server") {
        Ok(v) => v,
        Err(e) => return Err(e),
    };
    let approval_criteria = match get_str(t, "approval_criteria", "APPROVAL_CRITERIA", "currencies.approval_criteria") {
        Ok(v) => v,
        Err(e) => return Err(e),
    };
    Ok(Currency { code, code_template, issuer, status, display_decimals, name, description, conditions, image, fixed_number, max_number, is_unlimited, is_asset_anchored, anchor_asset_type, anchor_asset, redemption_instructions, collateral_addresses, collateral_address_messages, collateral_address_signatures, regulated, approval_server, approval_criteria })
}

/// Whether one sequence element binds as a Validator: it is a table whose
/// fields all bind cleanly.
pub open spec fn validator_elem_ok(v: DocValue) -> bool {
    match v {
        DocValue::Table(p) => spec_validator_ok(p@),
        _ => false,
    }
}

/// The Validator bound from one sequence element.
pub open spec fn validator_elem_val(v: DocValue) -> ValidatorV {
    match v {
        DocValue::Table(p) => spec_validator_val(p@),
        _ => spec_validator_val(Seq::empty()),
    }
}

/// Whether `e` is the error of one sequence element that fails to bind.
pub open spec fn validator_elem_err(v: DocValue, path: Seq<char>, e: ErrorV) -> bool {
    match v {
        DocValue::Table(p) => spec_validator_err(p@, e),
        _ => e == fderr(path),
    }
}

/// Whether the `validators` field binds: absent, or an array of tables whose
/// entities all bind cleanly.
pub open spec fn validators_field_ok(t: Seq<(String, DocValue)>) -> bool {
    match spec_find(t, "validators"@, "VALIDATORS"@) {
        None => true,
        Some(DocValue::Array(items)) => forall|i: int|
            0 <= i < items@.len() ==> validator_elem_ok(#[trigger] items@[i]),
        Some(_) => false,
    }
}

/// The bound `validators` sequence: an absent field binds to the empty sequence.
pub open spec fn validators_field_val(t: Seq<(String, DocValue)>) -> Seq<ValidatorV> {
    match spec_find(t, "validators"@, "VALIDATORS"@) {
        Some(DocValue::Array(items)) => Seq::new(
            items@.len(),
            |i: int| validator_elem_val(items@[i]),
        ),
        _ => Seq::empty(),
    }
}

/// Whether `e` is the error of the first `validators` entry that fails to bind.
pub open spec fn validators_field_err(t: Seq<(String, DocValue)>, e: ErrorV) -> bool {
    match spec_find(t, "validators"@, "VALIDATORS"@) {
        Some(DocValue::Array(items)) => exists|i: int|
            0 <= i < items@.len() && (forall|j: int|
                0 <= j < i ==> validator_elem_ok(#[trigger] items@[j])) && validator_elem_err(
                #[trigger] items@[i],
                "validators"@,
                e,
            ),
        Some(_) => e == fderr("validators"@),
        None => false,
    }
}

/// Binds every entry of a `validators` array; the first entry that fails to
/// bind aborts the sequence with its error.
fn bind_validator_seq(items: &Vec<DocValue>) -> (r: Result<Vec<Validator>, Error>)
    ensures
        r is Ok <==> forall|i: int| 0 <= i < items@.len() ==> validator_elem_ok(#[trigger] items@[i]),
        r is Ok ==> r.unwrap().deep_view() == Seq::new(
            items@.len(),
            |i: int| validator_elem_val(items@[i]),
        ),
        r is Err ==> exists|i: int|
            0 <= i < items@.len() && (forall|j: int|
                0 <= j < i ==> validator_elem_ok(#[trigger] items@[j])) && validator_elem_err(
                #[trigger] items@[i],
                "validators"@,
                r.unwrap_err().deep_view(),
            ),
{
    let mut out: Vec<Validator> = Vec::new();
    let mut i: usize = 0;
    while i < items.len()
        invariant
            i <= items@.len(),
            out@.len() == i,
            forall|j: int| 0 <= j < i ==> validator_elem_ok(#[trigger] items@[j]),
            forall|j: int| 0 <= j < i ==> out@[j].deep_view() == validator_elem_val(
                #[trigger] items@[j],
            ),
        decreases items@.len() - i,
    {
        match &items[i] {
            DocValue::Table(p) => match bind_validator(p) {
                Ok(v) => {
                    out.push(v);
                },
                Err(e) => {
                    proof {
                        assert(validator_elem_err(items@[i as int], "validators"@, e.deep_view()));
                    }
                    return Err(e);
                },
            },
            _ => {
                let e = Error::FieldDecodingError { path: "validators".to_owned() };
                proof {
                    assert(validator_elem_err(items@[i as int], "validators"@, e.deep_view()));
                }
                return Err(e);
            },
        }
        i = i + 1;
    }
    proof {
        let target = Seq::new(items@.len(), |k: int| validator_elem_val(items@[k]));
        assert forall|j: int| 0 <= j < out.deep_view().len() implies out.deep_view()[j]
            == target[j] by {
            assert(out.deep_view()[j] == out@[j].deep_view());
            assert(target[j] == validator_elem_val(items@[j]));
        }
        assert(out.deep_view() =~= target);
    }
    Ok(out)
}

/// Whether one sequence element binds as a Currency: it is a table whose
/// fields all bind cleanly.
pub open spec fn currency_elem_ok(v: DocValue) -> bool {
    match v {
        DocValue::Table(p) => spec_currency_ok(p@),
        _ => false,
    }
}

/// The Currency bound from one sequence element.
pub open spec fn currency_elem_val(v: DocValue) -> CurrencyV {
    match v {
        DocValue::Table(p) => spec_currency_val(p@),
        _ => spec_currency_val(Seq::empty()),
    }
}

/// Whether `e` is the error of one sequence element that fails to bind.
pub open spec fn currency_elem_err(v: DocValue, path: Seq<char>, e: ErrorV) -> bool {
    match v {
        DocValue::Table(p) => spec_currency_err(p@, e),
        _ => e == fderr(path),
    }
}

/// Whether the `currencies` field binds: absent, or an array of tables whose
/// entities all bind cleanly.
pub open spec fn currencies_field_ok(t: Seq<(String, DocValue)>) -> bool {
    match spec_find(t, "currencies"@, "CURRENCIES"@) {
        None => true,
        Some(DocValue::Array(items)) => forall|i: int|
            0 <= i < items@.len() ==> currency_elem_ok(#[trigger] items@[i]),
        Some(_) => false,
    }
}

/// The bound `currencies` sequence: an absent field binds to the empty sequence.
pub open spec fn currencies_field_val(t: Seq<(String, DocValue)>) -> Seq<CurrencyV> {
    match spec_find(t, "currencies"@, "CURRENCIES"@) {
        Some(DocValue::Array(items)) => Seq::new(
            items@.len(),
            |i: int| currency_elem_val(items@[i]),
        ),
        _ => Seq::empty(),
    }
}

/// Whether `e` is the error of the first `currencies` entry that fails to bind.
pub open spec fn currencies_field_err(t: Seq<(String, DocValue)>, e: ErrorV) -> bool {
    match spec_find(t, "currencies"@, "CURRENCIES"@) {
        Some(DocValue::Array(items)) => exists|i: int|
            0 <= i < items@.len() && (forall|j: int|
                0 <= j < i ==> currency_elem_ok(#[trigger] items@[j])) && currency_elem_err(
                #[trigger] items@[i],
                "currencies"@,
                e,
            ),
        Some(_) => e == fderr("currencies"@),
        None => false,
    }
}

/// Binds every entry of a `currencies` array; the first entry that fails to
/// bind aborts the sequence with its error.
fn bind_currency_seq(items: &Vec<DocValue>) -> (r: Result<Vec<Currency>, Error>)
    ensures
        r is Ok <==> forall|i: int| 0 <= i < items@.len() ==> currency_elem_ok(#[trigger] items@[i]),
        r is Ok ==> r.unwrap().deep_view() == Seq::new(
            items@.len(),
            |i: int| currency_elem_val(items@[i]),
        ),
        r is Err ==> exists|i: int|
            0 <= i < items@.len() && (forall|j: int|
                0 <= j < i ==> currency_elem_ok(#[trigger] items@[j])) && currency_elem_err(
                #[trigger] items@[i],
                "currencies"@,
                r.unwrap_err().deep_view(),
            ),
{
    let mut out: Vec<Currency> = Vec::new();
    let mut i: usize = 0;
    while i < items.len()
        invariant
            i <= items@.len(),
            out@.len() == i,
            forall|j: int| 0 <= j < i ==> currency_elem_ok(#[trigger] items@[j]),
            forall|j: int| 0 <= j < i ==> out@[j].deep_view() == currency_elem_val(
                #[trigger] items@[j],
            ),
        decreases items@.len() - i,
    {
        match &items[i] {
            DocValue::Table(p) => match bind_currency(p) {
                Ok(v) => {
                    out.push(v);
                },
                Err(e) => {
                    proof {
                        assert(currency_elem_err(items@[i as int], "currencies"@, e.deep_view()));
                    }
                    return Err(e);
                },
            },
            _ => {
                let e = Error::FieldDecodingError { path: "currencies".to_owned() };
                proof {
                    assert(currency_elem_err(items@[i as int], "currencies"@, e.deep_view()));
                }
                return Err(e);
            },
        }
        i = i + 1;
    }
    proof {
        let target = Seq::new(items@.len(), |k: int| currency_elem_val(items@[k]));
        assert forall|j: int| 0 <= j < out.deep_view().len() implies out.deep_view()[j]
            == target[j] by {
            assert(out.deep_view()[j] == out@[j].deep_view());
            assert(target[j] == currency_elem_val(items@[j]));
        }
        assert(out.deep_view() =~= target);
    }
    Ok(out)
}

/// Whether one sequence element binds as a PointOfContact: it is a table whose
/// fields all bind cleanly.
pub open spec fn point_of_contact_elem_ok(v: DocValue) -> bool {
    match v {
        DocValue::Table(p) => spec_point_of_contact_ok(p@),
        _ => false,
    }
}

/// The PointOfContact bound from one sequence element.
pub open spec fn point_of_contact_elem_val(v: DocValue) -> PointOfContactV {
    match v {
        DocValue::Table(p) => spec_point_of_contact_val(p@),
        _ => spec_point_of_contact_val(Seq::empty()),
    }
}

/// Whether `e` is the error of one sequence element that fails to bind.
pub open spec fn point_of_contact_elem_err(v: DocValue, path: Seq<char>, e: ErrorV) -> bool {
    match v {
        DocValue::Table(p) => spec_point_of_contact_err(p@, e),
        _ => e == fderr(path),
    }
}

/// Whether the `principals` field binds: absent, or an array of tables whose
/// entities all bind cleanly.
pub open spec fn principals_field_ok(t: Seq<(String, DocValue)>) -> bool {
    match spec_find(t, "principals"@, "PRINCIPALS"@) {
        None => true,
        Some(DocValue::Array(items)) => forall|i: int|
            0 <= i < items@.len() ==> point_of_contact_elem_ok(#[trigger] items@[i]),
        Some(_) => false,
    }
}

/// The bound `principals` sequence: an absent field binds to the empty sequence.
pub open spec fn principals_field_val(t: Seq<(String, DocValue)>) -> Seq<PointOfContactV> {
    match spec_find(t, "principals"@, "PRINCIPALS"@) {
        Some(DocValue::Array(items)) => Seq::new(
            items@.len(),
            |i: int| point_of_contact_elem_val(items@[i]),
        ),
        _ => Seq::empty(),
    }
}

/// Whether `e` is the error of the first `principals` entry that fails to bind.
pub open spec fn principals_field_err(t: Seq<(String, DocValue)>, e: ErrorV) -> bool {
    match spec_find(t, "principals"@, "PRINCIPALS"@) {
        Some(DocValue::Array(items)) => exists|i: int|
            0 <= i < items@.len() && (forall|j: int|
                0 <= j < i ==> point_of_contact_elem_ok(#[trigger] items@[j])) && point_of_contact_elem_err(
                #[trigger] items@[i],
                "principals"@,
                e,
            ),
        Some(_) => e == fderr("principals"@),
        None => false,
    }
}

/// Binds every entry of a `principals` array; the first entry that fails to
/// bind aborts the sequence with its error.
fn bind_point_of_contact_seq(items: &Vec<DocValue>) -> (r: Result<Vec<PointOfContact>, Error>)
    ensures
        r is Ok <==> forall|i: int| 0 <= i < items@.len() ==> point_of_contact_elem_ok(#[trigger] items@[i]),
        r is Ok ==> r.unwrap().deep_view() == Seq::new(
            items@.len(),
            |i: int| point_of_contact_elem_val(items@[i]),
        ),
        r is Err ==> exists|i: int|
            0 <= i < items@.len() && (forall|j: int|
                0 <= j < i ==> point_of_contact_elem_ok(#[trigger] items@[j])) && point_of_contact_elem_err(
                #[trigger] items@[i],
                "principals"@,
                r.unwrap_err().deep_view(),
            ),
{
    let mut out: Vec<PointOfContact> = Vec::new();
    let mut i: usize = 0;
    while i < items.len()
        invariant
            i <= items@.len(),
            out@.len() == i,
            forall|j: int| 0 <= j < i ==> point_of_contact_elem_ok(#[trigger] items@[j]),
            forall|j: int| 0 <= j < i ==> out@[j].deep_view() == point_of_contact_elem_val(
                #[trigger] items@[j],
            ),
        decreases items@.len() - i,
    {
        match &items[i] {
            DocValue::Table(p) => match bind_point_of_contact(p) {
                Ok(v) => {
                    out.push(v);
                },
                Err(e) => {
                    proof {
                        assert(point_of_contact_elem_err(items@[i as int], "principals"@, e.deep_view()));
                    }
                    return Err(e);
                },
            },
            _ => {
                let e = Error::FieldDecodingError { path: "principals".to_owned() };
                proof {
                    assert(point_of_contact_elem_err(items@[i as int], "principals"@, e.deep_view()));
                }
                return Err(e);
            },
        }
        i = i + 1;
    }
    proof {
        let target = Seq::new(items@.len(), |k: int| point_of_contact_elem_val(items@[k]));
        assert forall|j: int| 0 <= j < out.deep_view().len() implies out.deep_view()[j]
            == target[j] by {
            assert(out.deep_view()[j] == out@[j].deep_view());
            assert(target[j] == point_of_contact_elem_val(items@[j]));
        }
        assert(out.deep_view() =~= target);
    }
    Ok(out)
}

/// Whether the `documentation` field binds: absent, or a table whose fields
/// all bind cleanly.
pub open spec fn documentation_field_ok(t: Seq<(String, DocValue)>) -> bool {
    match spec_find(t, "documentation"@, "DOCUMENTATION"@) {
        None => true,
        Some(DocValue::Table(p)) => spec_documentation_ok(p@),
        Some(_) => false,
    }
}

/// The bound optional `documentation` block.
pub open spec fn documentation_field_val(t: Seq<(String, DocValue)>) -> Option<DocumentationV> {
    match spec_find(t, "documentation"@, "DOCUMENTATION"@) {
        Some(DocValue::Table(p)) => Some(spec_documentation_val(p@)),
        _ => None,
    }
}

/// Whether `e` is the error of the `documentation` block failing to bind.
pub open spec fn documentation_field_err(t: Seq<(String, DocValue)>, e: ErrorV) -> bool {
    match spec_find(t, "documentation"@, "DOCUMENTATION"@) {
        Some(DocValue::Table(p)) => spec_documentation_err(p@, e),
        Some(_) => e == fderr("documentation"@),
        None => false,
    }
}

/// The root typed representation of the organization's configuration
/// document, bound in one step from a decoded document and immutable from
/// then on.
#[derive(Debug, Clone)]
pub struct StellarToml {
    /// The version of the document format the document adheres to.
    pub version: Option<String>,
    /// The passphrase for the network this infrastructure operates on.
    pub network_passphrase: Option<String>,
    /// The endpoint for clients to resolve addresses for users on the domain.
    pub federation_server: Option<NetAddress>,
    /// The endpoint used for the compliance protocol.
    pub auth_server: Option<NetAddress>,
    /// The server used for anchor/client interoperability.
    pub transfer_server: Option<NetAddress>,
    /// The server used for interactive anchor/client interoperability.
    pub transfer_server_sep0024: Option<NetAddress>,
    /// The server used for anchor/client customer info transfer.
    pub kyc_server: Option<NetAddress>,
    /// The endpoint used for web authentication.
    pub web_auth_endpoint: Option<NetAddress>,
    /// The signing key used for compliance and web authentication.
    pub signing_key: Option<AccountKey>,
    /// Location of a public-facing horizon service instance.
    pub horizon_url: Option<String>,
    /// Accounts that are controlled by this domain.
    pub accounts: Vec<String>,
    /// The signing key used for delegated signing.
    pub uri_request_signing_key: Option<String>,
    /// Information about the organization.
    pub documentation: Option<Documentation>,
    /// Information about the organization principals.
    pub principals: Vec<PointOfContact>,
    /// Information about supported currencies.
    pub currencies: Vec<Currency>,
    /// Information about the organization validators.
    pub validators: Vec<Validator>,
}

/// Spec-level shape of [`StellarToml`], field for field over views.
pub struct StellarTomlV {
    pub version: Option<Seq<char>>,
    pub network_passphrase: Option<Seq<char>>,
    pub federation_server: Option<Seq<char>>,
    pub auth_server: Option<Seq<char>>,
    pub transfer_server: Option<Seq<char>>,
    pub transfer_server_sep0024: Option<Seq<char>>,
    pub kyc_server: Option<Seq<char>>,
    pub web_auth_endpoint: Option<Seq<char>>,
    pub signing_key: Option<Seq<char>>,
    pub horizon_url: Option<Seq<char>>,
    pub accounts: Seq<Seq<char>>,
    pub uri_request_signing_key: Option<Seq<char>>,
    pub documentation: Option<DocumentationV>,
    pub principals: Seq<PointOfContactV>,
    pub currencies: Seq<CurrencyV>,
    pub validators: Seq<ValidatorV>,
}

impl DeepView for StellarToml {
    type V = StellarTomlV;

    open spec fn deep_view(&self) -> StellarTomlV {
        StellarTomlV {
            version: self.version.deep_view(),
            network_passphrase: self.network_passphrase.deep_view(),
            federation_server: opt_text_view(self.federation_server),
            auth_server: opt_text_view(self.auth_server),
            transfer_server: opt_text_view(self.transfer_server),
            transfer_server_sep0024: opt_text_view(self.transfer_server_sep0024),
            kyc_server: opt_text_view(self.kyc_server),
            web_auth_endpoint: opt_text_view(self.web_auth_endpoint),
            signing_key: opt_text_view(self.signing_key),
            horizon_url: self.horizon_url.deep_view(),
            accounts: self.accounts.deep_view(),
            uri_request_signing_key: self.uri_request_signing_key.deep_view(),
            documentation: self.documentation.deep_view(),
            principals: self.principals.deep_view(),
            currencies: self.currencies.deep_view(),
            validators: self.validators.deep_view(),
        }
    }
}

/// Whether every field of the manifest binds cleanly from table `t`.
pub open spec fn spec_stellar_toml_ok(t: Seq<(String, DocValue)>) -> bool {
    &&& str_ok(t, "version"@, "VERSION"@)
    &&& str_ok(t, "network_passphrase"@, "NETWORK_PASSPHRASE"@)
    &&& rich_ok::<NetAddress>(t, "federation_server"@, "FEDERATION_SERVER"@)
    &&& rich_ok::<NetAddress>(t, "auth_server"@, "AUTH_SERVER"@)
    &&& rich_ok::<NetAddress>(t, "transfer_server"@, "TRANSFER_SERVER"@)
    &&& rich_ok::<NetAddress>(t, "transfer_server_sep0024"@, "TRANSFER_SERVER_SEP0024"@)
    &&& rich_ok::<NetAddress>(t, "kyc_server"@, "KYC_SERVER"@)
    &&& rich_ok::<NetAddress>(t, "web_auth_endpoint"@, "WEB_AUTH_ENDPOINT"@)
    &&& rich_ok::<AccountKey>(t, "signing_key"@, "SIGNING_KEY"@)
    &&& str_ok(t, "horizon_url"@, "HORIZON_URL"@)
    &&& str_seq_ok(t, "accounts"@, "ACCOUNTS"@)
    &&& str_ok(t, "uri_request_signing_key"@, "URI_REQUEST_SIGNING_KEY"@)
    &&& documentation_field_ok(t)
    &&& principals_field_ok(t)
    &&& currencies_field_ok(t)
    &&& validators_field_ok(t)
}

/// The manifest bound from table `t`, where every field binds cleanly.
pub open spec fn spec_stellar_toml_val(t: Seq<(String, DocValue)>) -> StellarTomlV {
    StellarTomlV {
        version: str_val(t, "version"@, "VERSION"@),
        network_passphrase: str_val(t, "network_passphrase"@, "NETWORK_PASSPHRASE"@),
        federation_server: rich_val::<NetAddress>(t, "federation_server"@, "FEDERATION_SERVER"@),
        auth_server: rich_val::<NetAddress>(t, "auth_server"@, "AUTH_SERVER"@),
        transfer_server: rich_val::<NetAddress>(t, "transfer_server"@, "TRANSFER_SERVER"@),
        transfer_server_sep0024: rich_val::<NetAddress>(t, "transfer_server_sep0024"@, "TRANSFER_SERVER_SEP0024"@),
        kyc_server: rich_val::<NetAddress>(t, "kyc_server"@, "KYC_SERVER"@),
        web_auth_endpoint: rich_val::<NetAddress>(t, "web_auth_endpoint"@, "WEB_AUTH_ENDPOINT"@),
        signing_key: rich_val::<AccountKey>(t, "signing_key"@, "SIGNING_KEY"@),
        horizon_url: str_val(t, "horizon_url"@, "HORIZON_URL"@),
        accounts: str_seq_val(t, "accounts"@, "ACCOUNTS"@),
        uri_request_signing_key: str_val(t, "uri_request_signing_key"@, "URI_REQUEST_SIGNING_KEY"@),
        documentation: documentation_field_val(t),
        principals: principals_field_val(t),
        currencies: currencies_field_val(t),
        validators: validators_field_val(t),
    }
}

/// Whether `e` is the error of the first manifest field that fails to bind.
pub open spec fn spec_stellar_toml_err(t: Seq<(String, DocValue)>, e: ErrorV) -> bool {
    if !str_ok(t, "version"@, "VERSION"@) {
        e == fderr("version"@)
    } else if !str_ok(t, "network_passphrase"@, "NETWORK_PASSPHRASE"@) {
        e == fderr("network_passphrase"@)
    } else if !rich_ok::<NetAddress>(t, "federation_server"@, "FEDERATION_SERVER"@) {
        e == fderr("federation_server"@)
    } else if !rich_ok::<NetAddress>(t, "auth_server"@, "AUTH_SERVER"@) {
        e == fderr("auth_server"@)
    } else if !rich_ok::<NetAddress>(t, "transfer_server"@, "TRANSFER_SERVER"@) {
        e == fderr("transfer_server"@)
    } else if !rich_ok::<NetAddress>(t, "transfer_server_sep0024"@, "TRANSFER_SERVER_SEP0024"@) {
        e == fderr("transfer_server_sep0024"@)
    } else if !rich_ok::<NetAddress>(t, "kyc_server"@, "KYC_SERVER"@) {
        e == fderr("kyc_server"@)
    } else if !rich_ok::<NetAddress>(t, "web_auth_endpoint"@, "WEB_AUTH_ENDPOINT"@) {
        e == fderr("web_auth_endpoint"@)
    } else if !rich_ok::<AccountKey>(t, "signing_key"@, "SIGNING_KEY"@) {
        e == fderr("signing_key"@)
    } else if !str_ok(t, "horizon_url"@, "HORIZON_URL"@) {
        e == fderr("horizon_url"@)
    } else if !str_seq_ok(t, "accounts"@, "ACCOUNTS"@) {
        e == fderr("accounts"@)
    } else if !str_ok(t, "uri_request_signing_key"@, "URI_REQUEST_SIGNING_KEY"@) {
        e == fderr("uri_request_signing_key"@)
    } else if !documentation_field_ok(t) {
        documentation_field_err(t, e)
    } else if !principals_field_ok(t) {
        principals_field_err(t, e)
    } else if !currencies_field_ok(t) {
        currencies_field_err(t, e)
    } else if !validators_field_ok(t) {
        validators_field_err(t, e)
    } else {
        false
    }
}

/// Binds the whole manifest from a decoded document table, resolving
/// aliases and coercing rich values per field; the first field that fails to
/// bind aborts the whole document with its error.
pub fn bind_stellar_toml(t: &Vec<(String, DocValue)>) -> (r: Result<StellarToml, Error>)
    ensures
        r is Ok <==> spec_stellar_toml_ok(t@),
        r is Ok ==> r.unwrap().deep_view() == spec_stellar_toml_val(t@),
        r is Err ==> spec_stellar_toml_err(t@, r.unwrap_err().deep_view()),
{
    let version = match get_str(t, "version", "VERSION", "version") {
        Ok(v) => v,
        Err(e) => return Err(e),
    };
    let network_passphrase = match get_str(t, "network_passphrase", "NETWORK_PASSPHRASE", "network_passphrase") {
        Ok(v) => v,
        Err(e) => return Err(e),
    };
    let federation_server = match get_rich::<NetAddress>(t, "federation_server", "FEDERATION_SERVER", "federation_server") {
        Ok(v) => v,
        Err(e) => return Err(e),
    };
    let auth_server = match get_rich::<NetAddress>(t, "auth_server", "AUTH_SERVER", "auth_server") {
        Ok(v) => v,
        Err(e) => return Err(e),
    };
    let transfer_server = match get_rich::<NetAddress>(t, "transfer_server", "TRANSFER_SERVER", "transfer_server") {
        Ok(v) => v,
        Err(e) => return Err(e),
    };
    let transfer_server_sep0024 = match get_rich::<NetAddress>(t, "transfer_server_sep0024", "TRANSFER_SERVER_SEP0024", "transfer_server_sep0024") {
        Ok(v) => v,
        Err(e) => return Err(e),
    };
    let kyc_server = match get_rich::<NetAddress>(t, "kyc_server", "KYC_SERVER", "kyc_server") {
        Ok(v) => v,
        Err(e) => return Err(e),
    };
    let web_auth_endpoint = match get_rich::<NetAddress>(t, "web_auth_endpoint", "WEB_AUTH_ENDPOINT", "web_auth_endpoint") {
        Ok(v) => v,
        Err(e) => return Err(e),
    };
    let signing_key = match get_rich::<AccountKey>(t, "signing_key", "SIGNING_KEY", "signing_key") {
        Ok(v) => v,
        Err(e) => return Err(e),
    };
    let horizon_url = match get_str(t, "horizon_url", "HORIZON_URL", "horizon_url") {
        Ok(v) => v,
        Err(e) => return Err(e),
    };
    let accounts = match get_str_seq(t, "accounts", "ACCOUNTS", "accounts") {
        Ok(v) => v,
        Err(e) => return Err(e),
    };
    let uri_request_signing_key = match get_str(t, "uri_request_signing_key", "URI_REQUEST_SIGNING_KEY", "uri_request_signing_key") {
        Ok(v) => v,
        Err(e) => return Err(e),
    };
    let documentation: Option<Documentation> = match find_field(t, "documentation", "DOCUMENTATION") {
        None => None,
        Some(DocValue::Table(p)) => match bind_documentation(p) {
            Ok(d) => Some(d),
            Err(e) => return Err(e),
        },
        Some(_) => return Err(Error::FieldDecodingError { path: "documentation".to_owned() }),
    };
    let principals: Vec<PointOfContact> = match find_field(t, "principals", "PRINCIPALS") {
        None => {
            let v: Vec<PointOfContact> = Vec::new();
            proof {
                assert(v.deep_view() =~= principals_field_val(t@));
            }
            v
        },
        Some(DocValue::Array(items)) => match bind_point_of_contact_seq(items) {
            Ok(v) => {
                proof {
                    assert(v.deep_view() =~= principals_field_val(t@));
                }
                v
            },
            Err(e) => return Err(e),
        },
        Some(_) => return Err(Error::FieldDecodingError { path: "principals".to_owned() }),
    };
    let currencies: Vec<Currency> = match find_field(t, "currencies", "CURRENCIES") {
        None => {
            let v: Vec<Currency> = Vec::new();
            proof {
                assert(v.deep_view() =~= currencies_field_val(t@));
            }
            v
        },
        Some(DocValue::Array(items)) => match bind_currency_seq(items) {
            Ok(v) => {
                proof {
                    assert(v.deep_view() =~= currencies_field_val(t@));
                }
                v
            },
            Err(e) => return Err(e),
        },
        Some(_) => return Err(Error::FieldDecodingError { path: "currencies".to_owned() }),
    };
    let validators: Vec<Validator> = match find_field(t, "validators", "VALIDATORS") {
        None => {
            let v: Vec<Validator> = Vec::new();
            proof {
                assert(v.deep_view() =~= validators_field_val(t@));
            }
            v
        },
        Some(DocValue::Array(items)) => match bind_validator_seq(items) {
            Ok(v) => {
                proof {
                    assert(v.deep_view() =~= validators_field_val(t@));
                }
                v
            },
            Err(e) => return Err(e),
        },
        Some(_) => return Err(Error::FieldDecodingError { path: "validators".to_owned() }),
    };
    Ok(StellarToml { version, network_passphrase, federation_server, auth_server, transfer_server, transfer_server_sep0024, kyc_server, web_auth_endpoint, signing_key, horizon_url, accounts, uri_request_signing_key, documentation, principals, currencies, validators })
}

} // verus!
