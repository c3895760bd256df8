//! The record model: the typed, decoded representation of one source record,
//! with nested optional and repeating sub-structures, and the mathematical
//! views that the contracts of the rest of the library are stated over.

use vstd::prelude::*;

verus! {

/// A role tag carried by one name entry.
#[derive(Clone, Copy, PartialEq, Eq, Structural, Debug)]
pub enum NameRole {
    Primary,
    Label,
    Alias,
    Acronym,
}

/// The scheme of one external-identifier entry.
#[derive(Clone, Copy, PartialEq, Eq, Structural, Debug)]
pub enum IdScheme {
    Isni,
    Grid,
    Fundref,
    Wikidata,
}

/// The kind of one link entry.
#[derive(Clone, Copy, PartialEq, Eq, Structural, Debug)]
pub enum LinkKind {
    Wikipedia,
    Website,
}

/// The kind of one relationship entry.
#[derive(Clone, Copy, PartialEq, Eq, Structural, Debug)]
pub enum RelKind {
    Parent,
    Child,
    Related,
    Predecessor,
    Successor,
}

impl View for NameRole {
    type V = NameRole;

    open spec fn view(&self) -> NameRole {
        *self
    }
}

impl DeepView for NameRole {
    type V = NameRole;

    open spec fn deep_view(&self) -> NameRole {
        *self
    }
}

impl View for IdScheme {
    type V = IdScheme;

    open spec fn view(&self) -> IdScheme {
        *self
    }
}

impl DeepView for IdScheme {
    type V = IdScheme;

    open spec fn deep_view(&self) -> IdScheme {
        *self
    }
}

impl View for LinkKind {
    type V = LinkKind;

    open spec fn view(&self) -> LinkKind {
        *self
    }
}

impl DeepView for LinkKind {
    type V = LinkKind;

    open spec fn deep_view(&self) -> LinkKind {
        *self
    }
}

impl View for RelKind {
    type V = RelKind;

    open spec fn view(&self) -> RelKind {
        *self
    }
}

impl DeepView for RelKind {
    type V = RelKind;

    open spec fn deep_view(&self) -> RelKind {
        *self
    }
}

/// One name entry: a value, the set of role tags it carries, and optional
/// language and script codes.
pub struct NameEntry {
    pub value: String,
    pub roles: Vec<NameRole>,
    pub lang: Option<String>,
    pub script: Option<String>,
}

pub struct NameEntryV {
    pub value: Seq<char>,
    pub roles: Seq<NameRole>,
    pub lang: Option<Seq<char>>,
    pub script: Option<Seq<char>>,
}

impl View for NameEntry {
    type V = NameEntryV;

    open spec fn view(&self) -> NameEntryV {
        NameEntryV {
            value: self.value@,
            roles: self.roles@,
            lang: self.lang.deep_view(),
            script: self.script.deep_view(),
        }
    }
}

impl DeepView for NameEntry {
    type V = NameEntryV;

    open spec fn deep_view(&self) -> NameEntryV {
        self.view()
    }
}

/// The optional administrative status / establishment-year pair.
pub struct AdminInfo {
    pub status: String,
    pub established: Option<i64>,
}

pub struct AdminInfoV {
    pub status: Seq<char>,
    pub established: Option<i64>,
}

impl View for AdminInfo {
    type V = AdminInfoV;

    open spec fn view(&self) -> AdminInfoV {
        AdminInfoV { status: self.status@, established: self.established }
    }
}

impl DeepView for AdminInfo {
    type V = AdminInfoV;

    open spec fn deep_view(&self) -> AdminInfoV {
        self.view()
    }
}

/// One location entry. Latitude and longitude are carried as the raw decimal
/// text of the source document; the storage layer interprets them.
pub struct LocationEntry {
    pub geonames_id: Option<i64>,
    pub name: Option<String>,
    pub lat: Option<String>,
    pub lng: Option<String>,
    pub country_code: Option<String>,
    pub country_name: Option<String>,
}

pub struct LocationEntryV {
    pub geonames_id: Option<i64>,
    pub name: Option<Seq<char>>,
    pub lat: Option<Seq<char>>,
    pub lng: Option<Seq<char>>,
    pub country_code: Option<Seq<char>>,
    pub country_name: Option<Seq<char>>,
}

impl View for LocationEntry {
    type V = LocationEntryV;

    open spec fn view(&self) -> LocationEntryV {
        LocationEntryV {
            geonames_id: self.geonames_id,
            name: self.name.deep_view(),
            lat: self.lat.deep_view(),
            lng: self.lng.deep_view(),
            country_code: self.country_code.deep_view(),
            country_name: self.country_name.deep_view(),
        }
    }
}

impl DeepView for LocationEntry {
    type V = LocationEntryV;

    open spec fn deep_view(&self) -> LocationEntryV {
        self.view()
    }
}

/// One external-identifier entry.
pub struct ExternalIdEntry {
    pub scheme: IdScheme,
    pub value: String,
    pub preferred: bool,
}

pub struct ExternalIdEntryV {
    pub scheme: IdScheme,
    pub value: Seq<char>,
    pub preferred: bool,
}

impl View for ExternalIdEntry {
    type V = ExternalIdEntryV;

    open spec fn view(&self) -> ExternalIdEntryV {
        ExternalIdEntryV { scheme: self.scheme, value: self.value@, preferred: self.preferred }
    }
}

impl DeepView for ExternalIdEntry {
    type V = ExternalIdEntryV;

    open spec fn deep_view(&self) -> ExternalIdEntryV {
        self.view()
    }
}

/// One link entry.
pub struct LinkEntry {
    pub kind: LinkKind,
    pub url: String,
}

pub struct LinkEntryV {
    pub kind: LinkKind,
    pub url: Seq<char>,
}

impl View for LinkEntry {
    type V = LinkEntryV;

    open spec fn view(&self) -> LinkEntryV {
        LinkEntryV { kind: self.kind, url: self.url@ }
    }
}

impl DeepView for LinkEntry {
    type V = LinkEntryV;

    open spec fn deep_view(&self) -> LinkEntryV {
        self.view()
    }
}

/// One relationship entry.
pub struct RelationshipEntry {
    pub kind: RelKind,
    pub related_id: String,
    pub related_name: String,
}

pub struct RelationshipEntryV {
    pub kind: RelKind,
    pub related_id: Seq<char>,
    pub related_name: Seq<char>,
}

impl View for RelationshipEntry {
    type V = RelationshipEntryV;

    open spec fn view(&self) -> RelationshipEntryV {
        RelationshipEntryV {
            kind: self.kind,
            related_id: self.related_id@,
            related_name: self.related_name@,
        }
    }
}

impl DeepView for RelationshipEntry {
    type V = RelationshipEntryV;

    open spec fn deep_view(&self) -> RelationshipEntryV {
        self.view()
    }
}

/// One decoded source record. Absent optional sub-structures decode to empty
/// collections; `id` is the full URI-style identifier and is never empty.
pub struct RorRecord {
    pub id: String,
    pub names: Vec<NameEntry>,
    pub admin: Option<AdminInfo>,
    pub locations: Vec<LocationEntry>,
    pub external_ids: Vec<ExternalIdEntry>,
    pub links: Vec<LinkEntry>,
    pub types: Vec<String>,
    pub relationships: Vec<RelationshipEntry>,
    pub domains: Vec<String>,
}

pub struct RorRecordV {
    pub id: Seq<char>,
    pub names: Seq<NameEntryV>,
    pub admin: Option<AdminInfoV>,
    pub locations: Seq<LocationEntryV>,
    pub external_ids: Seq<ExternalIdEntryV>,
    pub links: Seq<LinkEntryV>,
    pub types: Seq<Seq<char>>,
    pub relationships: Seq<RelationshipEntryV>,
    pub domains: Seq<Seq<char>>,
}

impl View for RorRecord {
    type V = RorRecordV;

    open spec fn view(&self) -> RorRecordV {
        RorRecordV {
            id: self.id@,
            names: self.names.deep_view(),
            admin: self.admin.deep_view(),
            locations: self.locations.deep_view(),
            external_ids: self.external_ids.deep_view(),
            links: self.links.deep_view(),
            types: self.types.deep_view(),
            relationships: self.relationships.deep_view(),
            domains: self.domains.deep_view(),
        }
    }
}

impl DeepView for RorRecord {
    type V = RorRecordV;

    open spec fn deep_view(&self) -> RorRecordV {
        self.view()
    }
}

/// A record is valid when its full identifier is non-empty; the decoder
/// rejects records whose identifier is missing or empty.
pub open spec fn record_valid(r: RorRecordV) -> bool {
    r.id.len() > 0
}

} // verus!
