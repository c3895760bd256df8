//! Target-table row types and the pure fan-out of one decoded record into
//! zero-or-more rows per table. Every row carries the record's canonical
//! identifier; the admin row's counters are defined as the number of rows
//! emitted into each corresponding detail table.

use vstd::prelude::*;

use crate::records::{ExternalIdEntryV, IdScheme, LinkKind, NameEntryV, NameRole, RelKind, RorRecordV};

verus! {

/// Bookkeeping stamped onto every admin row: the dataset date and the schema
/// version it was created and last modified under.
pub struct Stamp {
    pub date: String,
    pub schema: String,
}

pub struct StampV {
    pub date: Seq<char>,
    pub schema: Seq<char>,
}

impl View for Stamp {
    type V = StampV;

    open spec fn view(&self) -> StampV {
        StampV { date: self.date@, schema: self.schema@ }
    }
}

impl DeepView for Stamp {
    type V = StampV;

    open spec fn deep_view(&self) -> StampV {
        self.view()
    }
}

/// One row of the core singleton table: exactly one per source record.
pub struct CoreRow {
    pub id: String,
    pub full_id: String,
    pub ror_name: String,
    pub status: String,
    pub established: Option<i64>,
    pub location: Option<String>,
    pub country_code: Option<String>,
}

pub struct CoreRowV {
    pub id: Seq<char>,
    pub full_id: Seq<char>,
    pub ror_name: Seq<char>,
    pub status: Seq<char>,
    pub established: Option<i64>,
    pub location: Option<Seq<char>>,
    pub country_code: Option<Seq<char>>,
}

impl View for CoreRow {
    type V = CoreRowV;

    open spec fn view(&self) -> CoreRowV {
        CoreRowV {
            id: self.id@,
            full_id: self.full_id@,
            ror_name: self.ror_name@,
            status: self.status@,
            established: self.established,
            location: self.location.deep_view(),
            country_code: self.country_code.deep_view(),
        }
    }
}

impl DeepView for CoreRow {
    type V = CoreRowV;

    open spec fn deep_view(&self) -> CoreRowV {
        self.view()
    }
}

/// One row of the admin singleton table: exactly one per source record, with
/// one counter per repeating category.
pub struct AdminRow {
    pub id: String,
    pub ror_name: String,
    pub n_locs: usize,
    pub n_labels: usize,
    pub n_aliases: usize,
    pub n_acronyms: usize,
    pub n_names: usize,
    pub n_langcodes: usize,
    pub n_isni: usize,
    pub n_grid: usize,
    pub n_fundref: usize,
    pub n_wikidata: usize,
    pub n_wikipaedia: usize,
    pub n_website: usize,
    pub n_types: usize,
    pub n_relrels: usize,
    pub n_parrels: usize,
    pub n_chrels: usize,
    pub n_sucrels: usize,
    pub n_predrels: usize,
    pub n_doms: usize,
    pub created: String,
    pub cr_schema: String,
    pub last_modified: String,
    pub lm_schema: String,
}

pub struct AdminRowV {
    pub id: Seq<char>,
    pub ror_name: Seq<char>,
    pub n_locs: nat,
    pub n_labels: nat,
    pub n_aliases: nat,
    pub n_acronyms: nat,
    pub n_names: nat,
    pub n_langcodes: nat,
    pub n_isni: nat,
    pub n_grid: nat,
    pub n_fundref: nat,
    pub n_wikidata: nat,
    pub n_wikipaedia: nat,
    pub n_website: nat,
    pub n_types: nat,
    pub n_relrels: nat,
    pub n_parrels: nat,
    pub n_chrels: nat,
    pub n_sucrels: nat,
    pub n_predrels: nat,
    pub n_doms: nat,
    pub created: Seq<char>,
    pub cr_schema: Seq<char>,
    pub last_modified: Seq<char>,
    pub lm_schema: Seq<char>,
}

impl View for AdminRow {
    type V = AdminRowV;

    open spec fn view(&self) -> AdminRowV {
        AdminRowV {
            id: self.id@,
            ror_name: self.ror_name@,
            n_locs: self.n_locs as nat,
            n_labels: self.n_labels as nat,
            n_aliases: self.n_aliases as nat,
            n_acronyms: self.n_acronyms as nat,
            n_names: self.n_names as nat,
            n_langcodes: self.n_langcodes as nat,
            n_isni: self.n_isni as nat,
            n_grid: self.n_grid as nat,
            n_fundref: self.n_fundref as nat,
            n_wikidata: self.n_wikidata as nat,
            n_wikipaedia: self.n_wikipaedia as nat,
            n_website: self.n_website as nat,
            n_types: self.n_types as nat,
            n_relrels: self.n_relrels as nat,
            n_parrels: self.n_parrels as nat,
            n_chrels: self.n_chrels as nat,
            n_sucrels: self.n_sucrels as nat,
            n_predrels: self.n_predrels as nat,
            n_doms: self.n_doms as nat,
            created: self.created@,
            cr_schema: self.cr_schema@,
            last_modified: self.last_modified@,
            lm_schema: self.lm_schema@,
        }
    }
}

impl DeepView for AdminRow {
    type V = AdminRowV;

    open spec fn deep_view(&self) -> AdminRowV {
        self.view()
    }
}

/// One row of the names table: one per role tag of one name entry.
pub struct NameRow {
    pub id: String,
    pub value: String,
    pub role: NameRole,
    pub is_ror_name: bool,
    pub lang: Option<String>,
    pub script: Option<String>,
}

pub struct NameRowV {
    pub id: Seq<char>,
    pub value: Seq<char>,
    pub role: NameRole,
    pub is_ror_name: bool,
    pub lang: Option<Seq<char>>,
    pub script: Option<Seq<char>>,
}

impl View for NameRow {
    type V = NameRowV;

    open spec fn view(&self) -> NameRowV {
        NameRowV {
            id: self.id@,
            value: self.value@,
            role: self.role,
            is_ror_name: self.is_ror_name,
            lang: self.lang.deep_view(),
            script: self.script.deep_view(),
        }
    }
}

impl DeepView for NameRow {
    type V = NameRowV;

    open spec fn deep_view(&self) -> NameRowV {
        self.view()
    }
}

/// One row of the locations table: one per location entry.
pub struct LocationRow {
    pub id: String,
    pub ror_name: String,
    pub geonames_id: Option<i64>,
    pub geonames_name: Option<String>,
    pub lat: Option<String>,
    pub lng: Option<String>,
    pub country_code: Option<String>,
    pub country_name: Option<String>,
}

pub struct LocationRowV {
    pub id: Seq<char>,
    pub ror_name: Seq<char>,
    pub geonames_id: Option<i64>,
    pub geonames_name: Option<Seq<char>>,
    pub lat: Option<Seq<char>>,
    pub lng: Option<Seq<char>>,
    pub country_code: Option<Seq<char>>,
    pub country_name: Option<Seq<char>>,
}

impl View for LocationRow {
    type V = LocationRowV;

    open spec fn view(&self) -> LocationRowV {
        LocationRowV {
            id: self.id@,
            ror_name: self.ror_name@,
            geonames_id: self.geonames_id,
            geonames_name: self.geonames_name.deep_view(),
            lat: self.lat.deep_view(),
            lng: self.lng.deep_view(),
            country_code: self.country_code.deep_view(),
            country_name: self.country_name.deep_view(),
        }
    }
}

impl DeepView for LocationRow {
    type V = LocationRowV;

    open spec fn deep_view(&self) -> LocationRowV {
        self.view()
    }
}

/// One row of the external-identifiers table: one per external-id entry.
pub struct ExternalIdRow {
    pub id: String,
    pub ror_name: String,
    pub scheme: IdScheme,
    pub id_value: String,
    pub is_preferred: bool,
}

pub struct ExternalIdRowV {
    pub id: Seq<char>,
    pub ror_name: Seq<char>,
    pub scheme: IdScheme,
    pub id_value: Seq<char>,
    pub is_preferred: bool,
}

impl View for ExternalIdRow {
    type V = ExternalIdRowV;

    open spec fn view(&self) -> ExternalIdRowV {
        ExternalIdRowV {
            id: self.id@,
            ror_name: self.ror_name@,
            scheme: self.scheme,
            id_value: self.id_value@,
            is_preferred: self.is_preferred,
        }
    }
}

impl DeepView for ExternalIdRow {
    type V = ExternalIdRowV;

    open spec fn deep_view(&self) -> ExternalIdRowV {
        self.view()
    }
}

/// One row of the links table: one per link entry.
pub struct LinkRow {
    pub id: String,
    pub ror_name: String,
    pub kind: LinkKind,
    pub link: String,
}

pub struct LinkRowV {
    pub id: Seq<char>,
    pub ror_name: Seq<char>,
    pub kind: LinkKind,
    pub link: Seq<char>,
}

impl View for LinkRow {
    type V = LinkRowV;

    open spec fn view(&self) -> LinkRowV {
        LinkRowV { id: self.id@, ror_name: self.ror_name@, kind: self.kind, link: self.link@ }
    }
}

impl DeepView for LinkRow {
    type V = LinkRowV;

    open spec fn deep_view(&self) -> LinkRowV {
        self.view()
    }
}

/// One row of the organization-types table: one per type entry.
pub struct TypeRow {
    pub id: String,
    pub ror_name: String,
    pub org_type: String,
}

pub struct TypeRowV {
    pub id: Seq<char>,
    pub ror_name: Seq<char>,
    pub org_type: Seq<char>,
}

impl View for TypeRow {
    type V = TypeRowV;

    open spec fn view(&self) -> TypeRowV {
        TypeRowV { id: self.id@, ror_name: self.ror_name@, org_type: self.org_type@ }
    }
}

impl DeepView for TypeRow {
    type V = TypeRowV;

    open spec fn deep_view(&self) -> TypeRowV {
        self.view()
    }
}

/// One row of the relationships table: one per relationship entry.
pub struct RelationshipRow {
    pub id: String,
    pub ror_name: String,
    pub rel_type: RelKind,
    pub related_id: String,
    pub related_name: String,
}

pub struct RelationshipRowV {
    pub id: Seq<char>,
    pub ror_name: Seq<char>,
    pub rel_type: RelKind,
    pub related_id: Seq<char>,
    pub related_name: Seq<char>,
}

impl View for RelationshipRow {
    type V = RelationshipRowV;

    open spec fn view(&self) -> RelationshipRowV {
        RelationshipRowV {
            id: self.id@,
            ror_name: self.ror_name@,
            rel_type: self.rel_type,
            related_id: self.related_id@,
            related_name: self.related_name@,
        }
    }
}

impl DeepView for RelationshipRow {
    type V = RelationshipRowV;

    open spec fn deep_view(&self) -> RelationshipRowV {
        self.view()
    }
}

/// One row of the domains table: one per domain entry.
pub struct DomainRow {
    pub id: String,
    pub ror_name: String,
    pub domain: String,
}

pub struct DomainRowV {
    pub id: Seq<char>,
    pub ror_name: Seq<char>,
    pub domain: Seq<char>,
}

impl View for DomainRow {
    type V = DomainRowV;

    open spec fn view(&self) -> DomainRowV {
        DomainRowV { id: self.id@, ror_name: self.ror_name@, domain: self.domain@ }
    }
}

impl DeepView for DomainRow {
    type V = DomainRowV;

    open spec fn deep_view(&self) -> DomainRowV {
        self.view()
    }
}

/// The value of the first name entry at or after position `i` that carries
/// the primary role, if any.
pub open spec fn primary_name_from(names: Seq<NameEntryV>, i: int) -> Option<Seq<char>>
    decreases names.len() - i,
{
    if i < 0 || i >= names.len() {
        None
    } else if names[i].roles.contains(NameRole::Primary) {
        Some(names[i].value)
    } else {
        primary_name_from(names, i + 1)
    }
}

/// The display name of a record: the value of its first primary-tagged name
/// entry, else the value of its first name entry, else empty.
pub open spec fn display_name_of(names: Seq<NameEntryV>) -> Seq<char> {
    match primary_name_from(names, 0) {
        Some(v) => v,
        None => if names.len() > 0 {
            names[0].value
        } else {
            Seq::<char>::empty()
        },
    }
}

/// The single core row emitted for one record under identifier `id`.
pub open spec fn core_row_of(r: RorRecordV, id: Seq<char>) -> CoreRowV {
    CoreRowV {
        id: id,
        full_id: r.id,
        ror_name: display_name_of(r.names),
        status: match r.admin {
            Some(a) => a.status,
            None => Seq::<char>::empty(),
        },
        established: match r.admin {
            Some(a) => a.established,
            None => None,
        },
        location: if r.locations.len() > 0 {
            r.locations[0].name
        } else {
            None
        },
        country_code: if r.locations.len() > 0 {
            r.locations[0].country_code
        } else {
            None
        },
    }
}

/// The name row emitted for role `role` of entry `e`.
pub open spec fn name_row_for(e: NameEntryV, id: Seq<char>, role: NameRole) -> NameRowV {
    NameRowV {
        id: id,
        value: e.value,
        role: role,
        is_ror_name: e.roles.contains(NameRole::Primary),
        lang: e.lang,
        script: e.script,
    }
}

/// The name rows emitted for one entry: one row per role tag, in tag order.
pub open spec fn entry_name_rows(e: NameEntryV, id: Seq<char>) -> Seq<NameRowV> {
    e.roles.map_values(|role: NameRole| name_row_for(e, id, role))
}

/// The name rows emitted for the entries of `names` from position `i` on.
pub open spec fn name_rows_from(names: Seq<NameEntryV>, id: Seq<char>, i: int) -> Seq<NameRowV>
    decreases names.len() - i,
{
    if i < 0 || i >= names.len() {
        Seq::<NameRowV>::empty()
    } else {
        entry_name_rows(names[i], id) + name_rows_from(names, id, i + 1)
    }
}

/// All name rows emitted for one record.
pub open spec fn name_rows_of(r: RorRecordV, id: Seq<char>) -> Seq<NameRowV> {
    name_rows_from(r.names, id, 0)
}

/// All location rows emitted for one record, in entry order.
pub open spec fn location_rows_of(r: RorRecordV, id: Seq<char>) -> Seq<LocationRowV> {
    r.locations.map_values(
        |e: crate::records::LocationEntryV| LocationRowV {
            id: id,
            ror_name: display_name_of(r.names),
            geonames_id: e.geonames_id,
            geonames_name: e.name,
            lat: e.lat,
            lng: e.lng,
            country_code: e.country_code,
            country_name: e.country_name,
        },
    )
}

/// All external-identifier rows emitted for one record, in entry order.
pub open spec fn ext_id_rows_of(r: RorRecordV, id: Seq<char>) -> Seq<ExternalIdRowV> {
    r.external_ids.map_values(
        |e: ExternalIdEntryV| ExternalIdRowV {
            id: id,
            ror_name: display_name_of(r.names),
            scheme: e.scheme,
            id_value: e.value,
            is_preferred: e.preferred,
        },
    )
}

/// All link rows emitted for one record, in entry order.
pub open spec fn link_rows_of(r: RorRecordV, id: Seq<char>) -> Seq<LinkRowV> {
    r.links.map_values(
        |e: crate::records::LinkEntryV| LinkRowV {
            id: id,
            ror_name: display_name_of(r.names),
            kind: e.kind,
            link: e.url,
        },
    )
}

/// All organization-type rows emitted for one record, in entry order.
pub open spec fn type_rows_of(r: RorRecordV, id: Seq<char>) -> Seq<TypeRowV> {
    r.types.map_values(
        |t: Seq<char>| TypeRowV { id: id, ror_name: display_name_of(r.names), org_type: t },
    )
}

/// All relationship rows emitted for one record, in entry order.
pub open spec fn rel_rows_of(r: RorRecordV, id: Seq<char>) -> Seq<RelationshipRowV> {
    r.relationships.map_values(
        |e: crate::records::RelationshipEntryV| RelationshipRowV {
            id: id,
            ror_name: display_name_of(r.names),
            rel_type: e.kind,
            related_id: e.related_id,
            related_name: e.related_name,
        },
    )
}

/// All domain rows emitted for one record, in entry order.
pub open spec fn domain_rows_of(r: RorRecordV, id: Seq<char>) -> Seq<DomainRowV> {
    r.domains.map_values(
        |d: Seq<char>| DomainRowV { id: id, ror_name: display_name_of(r.names), domain: d },
    )
}

/// The number of elements of `s` that satisfy `p`.
pub open spec fn count_matching<T>(s: Seq<T>, p: spec_fn(T) -> bool) -> nat
    decreases s.len(),
{
    if s.len() == 0 {
        0
    } else {
        count_matching(s.drop_last(), p) + if p(s.last()) {
            1nat
        } else {
            0nat
        }
    }
}

pub proof fn lemma_count_matching_le_len<T>(s: Seq<T>, p: spec_fn(T) -> bool)
    ensures
        count_matching(s, p) <= s.len(),
    decreases s.len(),
{
    if s.len() > 0 {
        lemma_count_matching_le_len(s.drop_last(), p);
    }
}

/// Holds of a name row that carries role `role`.
pub open spec fn role_pred(role: NameRole) -> spec_fn(NameRowV) -> bool {
    |x: NameRowV| x.role == role
}

/// Holds of a name row that carries a language code.
pub open spec fn lang_pred() -> spec_fn(NameRowV) -> bool {
    |x: NameRowV| x.lang is Some
}

/// Holds of an external-identifier row of scheme `scheme`.
pub open spec fn scheme_pred(scheme: IdScheme) -> spec_fn(ExternalIdRowV) -> bool {
    |x: ExternalIdRowV| x.scheme == scheme
}

/// Holds of a link row of kind `kind`.
pub open spec fn link_pred(kind: LinkKind) -> spec_fn(LinkRowV) -> bool {
    |x: LinkRowV| x.kind == kind
}

/// Holds of a relationship row of kind `kind`.
pub open spec fn rel_pred(kind: RelKind) -> spec_fn(RelationshipRowV) -> bool {
    |x: RelationshipRowV| x.rel_type == kind
}

/// The single admin row emitted for one record under identifier `id`: every
/// counter is the number of rows emitted into the corresponding table.
pub open spec fn admin_row_of(r: RorRecordV, id: Seq<char>, stamp: StampV) -> AdminRowV {
    let nrows = name_rows_of(r, id);
    let erows = ext_id_rows_of(r, id);
    let lrows = link_rows_of(r, id);
    let rrows = rel_rows_of(r, id);
    AdminRowV {
        id: id,
        ror_name: display_name_of(r.names),
        n_locs: location_rows_of(r, id).len(),
        n_labels: count_matching(nrows, role_pred(NameRole::Label)),
        n_aliases: count_matching(nrows, role_pred(NameRole::Alias)),
        n_acronyms: count_matching(nrows, role_pred(NameRole::Acronym)),
        n_names: nrows.len(),
        n_langcodes: count_matching(nrows, lang_pred()),
        n_isni: count_matching(erows, scheme_pred(IdScheme::Isni)),
        n_grid: count_matching(erows, scheme_pred(IdScheme::Grid)),
        n_fundref: count_matching(erows, scheme_pred(IdScheme::Fundref)),
        n_wikidata: count_matching(erows, scheme_pred(IdScheme::Wikidata)),
        n_wikipaedia: count_matching(lrows, link_pred(LinkKind::Wikipedia)),
        n_website: count_matching(lrows, link_pred(LinkKind::Website)),
        n_types: type_rows_of(r, id).len(),
        n_relrels: count_matching(rrows, rel_pred(RelKind::Related)),
        n_parrels: count_matching(rrows, rel_pred(RelKind::Parent)),
        n_chrels: count_matching(rrows, rel_pred(RelKind::Child)),
        n_sucrels: count_matching(rrows, rel_pred(RelKind::Successor)),
        n_predrels: count_matching(rrows, rel_pred(RelKind::Predecessor)),
        n_doms: domain_rows_of(r, id).len(),
        created: stamp.date,
        cr_schema: stamp.schema,
        last_modified: stamp.date,
        lm_schema: stamp.schema,
    }
}

/// Law: for every record, identifier and stamp, each per-category counter on
/// the admin row equals the number of rows emitted into the corresponding
/// detail table, and the two singleton tables get exactly one row each by
/// construction.
pub proof fn lemma_admin_counters_match_rows(r: RorRecordV, id: Seq<char>, stamp: StampV)
    ensures
        admin_row_of(r, id, stamp).n_locs == location_rows_of(r, id).len(),
        admin_row_of(r, id, stamp).n_names == name_rows_of(r, id).len(),
        admin_row_of(r, id, stamp).n_labels == count_matching(
            name_rows_of(r, id),
            role_pred(NameRole::Label),
        ),
        admin_row_of(r, id, stamp).n_aliases == count_matching(
            name_rows_of(r, id),
            role_pred(NameRole::Alias),
        ),
        admin_row_of(r, id, stamp).n_acronyms == count_matching(
            name_rows_of(r, id),
            role_pred(NameRole::Acronym),
        ),
        admin_row_of(r, id, stamp).n_langcodes == count_matching(name_rows_of(r, id), lang_pred()),
        admin_row_of(r, id, stamp).n_isni == count_matching(
            ext_id_rows_of(r, id),
            scheme_pred(IdScheme::Isni),
        ),
        admin_row_of(r, id, stamp).n_grid == count_matching(
            ext_id_rows_of(r, id),
            scheme_pred(IdScheme::Grid),
        ),
        admin_row_of(r, id, stamp).n_fundref == count_matching(
            ext_id_rows_of(r, id),
            scheme_pred(IdScheme::Fundref),
        ),
        admin_row_of(r, id, stamp).n_wikidata == count_matching(
            ext_id_rows_of(r, id),
            scheme_pred(IdScheme::Wikidata),
        ),
        admin_row_of(r, id, stamp).n_wikipaedia == count_matching(
            link_rows_of(r, id),
            link_pred(LinkKind::Wikipedia),
        ),
        admin_row_of(r, id, stamp).n_website == count_matching(
            link_rows_of(r, id),
            link_pred(LinkKind::Website),
        ),
        admin_row_of(r, id, stamp).n_types == type_rows_of(r, id).len(),
        admin_row_of(r, id, stamp).n_relrels == count_matching(
            rel_rows_of(r, id),
            rel_pred(RelKind::Related),
        ),
        admin_row_of(r, id, stamp).n_parrels == count_matching(
            rel_rows_of(r, id),
            rel_pred(RelKind::Parent),
        ),
        admin_row_of(r, id, stamp).n_chrels == count_matching(
            rel_rows_of(r, id),
            rel_pred(RelKind::Child),
        ),
        admin_row_of(r, id, stamp).n_sucrels == count_matching(
            rel_rows_of(r, id),
            rel_pred(RelKind::Successor),
        ),
        admin_row_of(r, id, stamp).n_predrels == count_matching(
            rel_rows_of(r, id),
            rel_pred(RelKind::Predecessor),
        ),
        admin_row_of(r, id, stamp).n_doms == domain_rows_of(r, id).len(),
{
}

/// Law: a minimal record, one with every optional part absent, fans out into
/// no detail rows at all, and its admin counters are all zero.
pub proof fn lemma_minimal_record_rows(r: RorRecordV, id: Seq<char>, stamp: StampV)
    requires
        r.names.len() == 0,
        r.admin is None,
        r.locations.len() == 0,
        r.external_ids.len() == 0,
        r.links.len() == 0,
        r.types.len() == 0,
        r.relationships.len() == 0,
        r.domains.len() == 0,
    ensures
        name_rows_of(r, id).len() == 0,
        location_rows_of(r, id).len() == 0,
        ext_id_rows_of(r, id).len() == 0,
        link_rows_of(r, id).len() == 0,
        type_rows_of(r, id).len() == 0,
        rel_rows_of(r, id).len() == 0,
        domain_rows_of(r, id).len() == 0,
        admin_row_of(r, id, stamp).n_locs == 0,
        admin_row_of(r, id, stamp).n_labels == 0,
        admin_row_of(r, id, stamp).n_aliases == 0,
        admin_row_of(r, id, stamp).n_acronyms == 0,
        admin_row_of(r, id, stamp).n_names == 0,
        admin_row_of(r, id, stamp).n_langcodes == 0,
        admin_row_of(r, id, stamp).n_isni == 0,
        admin_row_of(r, id, stamp).n_grid == 0,
        admin_row_of(r, id, stamp).n_fundref == 0,
        admin_row_of(r, id, stamp).n_wikidata == 0,
        admin_row_of(r, id, stamp).n_wikipaedia == 0,
        admin_row_of(r, id, stamp).n_website == 0,
        admin_row_of(r, id, stamp).n_types == 0,
        admin_row_of(r, id, stamp).n_relrels == 0,
        admin_row_of(r, id, stamp).n_parrels == 0,
        admin_row_of(r, id, stamp).n_chrels == 0,
        admin_row_of(r, id, stamp).n_sucrels == 0,
        admin_row_of(r, id, stamp).n_predrels == 0,
        admin_row_of(r, id, stamp).n_doms == 0,
        core_row_of(r, id).established is None,
        core_row_of(r, id).location is None,
        core_row_of(r, id).country_code is None,
{
}

} // verus!
