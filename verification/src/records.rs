//! The data model: organizations and their name records.
//!
//! An `Organization` is read-only for this library.  A `NameRecord` belongs
//! to one organization (`id` refers to it), carries the raw `name` with its
//! type and script tag, and receives the fields this library fills: the
//! derived match key `name_to_match`, the inferred `lang_code`, and the
//! provenance tag `lang_source`.

use vstd::prelude::*;

verus! {

/// Kinds of name records.
#[derive(Debug, Clone, Copy, PartialEq, Eq, Structural)]
pub enum NameType {
    Label,
    Alias,
    Acronym,
}

/// The organization-type code of a commercial company, the one type this
/// library treats specially.
pub const ORG_TYPE_COMPANY: u32 = 400;

/// One organization of the registry, as this library reads it.
pub struct Organization {
    pub id: String,
    pub country_code: String,
    pub org_type: u32,
}

/// One name variant of an organization.
pub struct NameRecord {
    pub id: String,
    pub name: String,
    pub name_to_match: Option<String>,
    pub name_type: NameType,
    pub script_code: String,
    pub lang_code: Option<String>,
    pub lang_source: Option<String>,
}

/// The mathematical value of an optional string.
pub open spec fn opt_view(o: Option<String>) -> Option<Seq<char>> {
    match o {
        Some(s) => Some(s@),
        None => None,
    }
}

/// The mathematical value of an organization.
#[verifier::ext_equal]
pub struct OrgV {
    pub id: Seq<char>,
    pub country_code: Seq<char>,
    pub org_type: u32,
}

/// The mathematical value of a name record.
#[verifier::ext_equal]
pub struct NameRecV {
    pub id: Seq<char>,
    pub name: Seq<char>,
    pub name_to_match: Option<Seq<char>>,
    pub name_type: NameType,
    pub script_code: Seq<char>,
    pub lang_code: Option<Seq<char>>,
    pub lang_source: Option<Seq<char>>,
}

impl View for Organization {
    type V = OrgV;

    open spec fn view(&self) -> OrgV {
        OrgV { id: self.id@, country_code: self.country_code@, org_type: self.org_type }
    }
}

impl DeepView for Organization {
    type V = OrgV;

    open spec fn deep_view(&self) -> OrgV {
        self.view()
    }
}

impl View for NameRecord {
    type V = NameRecV;

    open spec fn view(&self) -> NameRecV {
        NameRecV {
            id: self.id@,
            name: self.name@,
            name_to_match: opt_view(self.name_to_match),
            name_type: self.name_type,
            script_code: self.script_code@,
            lang_code: opt_view(self.lang_code),
            lang_source: opt_view(self.lang_source),
        }
    }
}

impl DeepView for NameRecord {
    type V = NameRecV;

    open spec fn deep_view(&self) -> NameRecV {
        self.view()
    }
}

/// The script tag of Latin-script names.
pub open spec fn latn_spec() -> Seq<char> {
    seq!['L', 'a', 't', 'n']
}

/// A record already carries a language code.
pub open spec fn is_coded(r: NameRecV) -> bool {
    r.lang_code is Some
}

} // verus!
