//! The three row-set accumulator groups and the executable fan-out of one
//! record into their buffers. `add_*` appends the record's rows; `take` hands
//! the buffered rows out and resets the buffers to empty, so one buffer is
//! never flushed twice.

use vstd::prelude::*;

use crate::records::{NameEntry, NameRole, RorRecord};
use crate::rows::{
    admin_row_of, core_row_of, display_name_of, domain_rows_of, entry_name_rows, ext_id_rows_of,
    lang_pred, link_pred, link_rows_of, location_rows_of, name_rows_from,
    name_rows_of, rel_pred, rel_rows_of, role_pred, scheme_pred, type_rows_of, AdminRow,
    AdminRowV, CoreRow, CoreRowV, DomainRow, DomainRowV, ExternalIdRow, ExternalIdRowV, LinkRow,
    LinkRowV, LocationRow, LocationRowV, NameRow, NameRowV, RelationshipRow, RelationshipRowV,
    Stamp, TypeRow, TypeRowV,
};

verus! {

fn clone_opt_text(o: &Option<String>) -> (r: Option<String>)
    ensures
        r.deep_view() == o.deep_view(),
{
    match o {
        Some(s) => Some(s.clone()),
        None => None,
    }
}

/// Whether `roles` holds the tag `role`.
pub fn has_role(roles: &Vec<NameRole>, role: NameRole) -> (r: bool)
    ensures
        r == roles@.contains(role),
{
    let mut i: usize = 0;
    while i < roles.len()
        invariant
            i <= roles@.len(),
            forall|j: int| 0 <= j < i ==> roles@[j] != role,
        decreases roles@.len() - i,
    {
        if roles[i] == role {
            assert(roles@[i as int] == role);
            return true;
        }
        i += 1;
    }
    false
}

/// The record's display name: its first primary-tagged name value, else its
/// first name value, else the empty string.
pub fn display_name(names: &Vec<NameEntry>) -> (r: String)
    ensures
        r@ == display_name_of(names.deep_view()),
{
    let mut i: usize = 0;
    while i < names.len()
        invariant
            i <= names@.len(),
            crate::rows::primary_name_from(names.deep_view(), 0)
                == crate::rows::primary_name_from(names.deep_view(), i as int),
        decreases names@.len() - i,
    {
        if has_role(&names[i].roles, NameRole::Primary) {
            assert(names.deep_view()[i as int].roles == names@[i as int].roles@);
            return names[i].value.clone();
        }
        assert(names.deep_view()[i as int].roles == names@[i as int].roles@);
        i += 1;
    }
    if names.len() > 0 {
        names[0].value.clone()
    } else {
        String::new()
    }
}

/// The name rows for one entry: one per role tag, in tag order.
fn build_entry_name_rows(e: &NameEntry, id: &String) -> (rows: Vec<NameRow>)
    ensures
        rows.deep_view() == entry_name_rows(e.deep_view(), id@),
{
    let is_primary = has_role(&e.roles, NameRole::Primary);
    let mut rows: Vec<NameRow> = Vec::new();
    let mut k: usize = 0;
    while k < e.roles.len()
        invariant
            k <= e.roles@.len(),
            is_primary == e.deep_view().roles.contains(NameRole::Primary),
            rows.deep_view() == entry_name_rows(e.deep_view(), id@).take(k as int),
        decreases e.roles@.len() - k,
    {
        let ghost prev = rows.deep_view();
        rows.push(
            NameRow {
                id: id.clone(),
                value: e.value.clone(),
                role: e.roles[k],
                is_ror_name: is_primary,
                lang: clone_opt_text(&e.lang),
                script: clone_opt_text(&e.script),
            },
        );
        proof {
            let target = entry_name_rows(e.deep_view(), id@);
            assert(rows.deep_view() =~= prev.push(target[k as int]));
            assert(prev.push(target[k as int]) =~= target.take(k as int + 1));
        }
        k += 1;
    }
    proof {
        assert(entry_name_rows(e.deep_view(), id@).take(e.roles@.len() as int) =~= entry_name_rows(
            e.deep_view(),
            id@,
        ));
    }
    rows
}

/// All name rows for one record's entries, in entry and tag order.
pub fn build_name_rows(names: &Vec<NameEntry>, id: &String) -> (rows: Vec<NameRow>)
    ensures
        rows.deep_view() == name_rows_from(names.deep_view(), id@, 0),
{
    let mut rows: Vec<NameRow> = Vec::new();
    let mut i: usize = 0;
    while i < names.len()
        invariant
            i <= names@.len(),
            rows.deep_view() + name_rows_from(names.deep_view(), id@, i as int)
                =~= name_rows_from(names.deep_view(), id@, 0),
        decreases names@.len() - i,
    {
        let ghost before = rows.deep_view();
        let mut entry_rows = build_entry_name_rows(&names[i], id);
        let ghost entry_seq = entry_rows.deep_view();
        rows.append(&mut entry_rows);
        i += 1;
        proof {
            assert(names@[i - 1].deep_view() == names.deep_view()[i - 1]);
            assert(rows.deep_view() =~= before + entry_seq);
            assert(before + (entry_seq + name_rows_from(names.deep_view(), id@, i as int)) =~= (
            before + entry_seq) + name_rows_from(names.deep_view(), id@, i as int));
        }
    }
    proof {
        assert(rows.deep_view() + name_rows_from(names.deep_view(), id@, names@.len() as int)
            =~= rows.deep_view());
    }
    rows
}

/// All location rows for one record, in entry order.
pub fn build_location_rows(r: &RorRecord, id: &String, ror_name: &String) -> (rows: Vec<
    LocationRow,
>)
    requires
        ror_name@ == display_name_of(r.deep_view().names),
    ensures
        rows.deep_view() == location_rows_of(r.deep_view(), id@),
{
    let mut rows: Vec<LocationRow> = Vec::new();
    let mut i: usize = 0;
    while i < r.locations.len()
        invariant
            i <= r.locations@.len(),
            ror_name@ == display_name_of(r.deep_view().names),
            rows.deep_view() == location_rows_of(r.deep_view(), id@).take(i as int),
        decreases r.locations@.len() - i,
    {
        let e = &r.locations[i];
        let ghost prev = rows.deep_view();
        rows.push(
            LocationRow {
                id: id.clone(),
                ror_name: ror_name.clone(),
                geonames_id: e.geonames_id,
                geonames_name: clone_opt_text(&e.name),
                lat: clone_opt_text(&e.lat),
                lng: clone_opt_text(&e.lng),
                country_code: clone_opt_text(&e.country_code),
                country_name: clone_opt_text(&e.country_name),
            },
        );
        proof {
            let target = location_rows_of(r.deep_view(), id@);
            assert(rows.deep_view() =~= prev.push(target[i as int]));
            assert(prev.push(target[i as int]) =~= target.take(i as int + 1));
        }
        i += 1;
    }
    proof {
        assert(location_rows_of(r.deep_view(), id@).take(r.locations@.len() as int)
            =~= location_rows_of(r.deep_view(), id@));
    }
    rows
}

/// All external-identifier rows for one record, in entry order.
pub fn build_ext_id_rows(r: &RorRecord, id: &String, ror_name: &String) -> (rows: Vec<
    ExternalIdRow,
>)
    requires
        ror_name@ == display_name_of(r.deep_view().names),
    ensures
        rows.deep_view() == ext_id_rows_of(r.deep_view(), id@),
{
    let mut rows: Vec<ExternalIdRow> = Vec::new();
    let mut i: usize = 0;
    while i < r.external_ids.len()
        invariant
            i <= r.external_ids@.len(),
            ror_name@ == display_name_of(r.deep_view().names),
            rows.deep_view() == ext_id_rows_of(r.deep_view(), id@).take(i as int),
        decreases r.external_ids@.len() - i,
    {
        let e = &r.external_ids[i];
        let ghost prev = rows.deep_view();
        rows.push(
            ExternalIdRow {
                id: id.clone(),
                ror_name: ror_name.clone(),
                scheme: e.scheme,
                id_value: e.value.clone(),
                is_preferred: e.preferred,
            },
        );
        proof {
            let target = ext_id_rows_of(r.deep_view(), id@);
            assert(rows.deep_view() =~= prev.push(target[i as int]));
            assert(prev.push(target[i as int]) =~= target.take(i as int + 1));
        }
        i += 1;
    }
    proof {
        assert(ext_id_rows_of(r.deep_view(), id@).take(r.external_ids@.len() as int)
            =~= ext_id_rows_of(r.deep_view(), id@));
    }
    rows
}

/// All link rows for one record, in entry order.
pub fn build_link_rows(r: &RorRecord, id: &String, ror_name: &String) -> (rows: Vec<LinkRow>)
    requires
        ror_name@ == display_name_of(r.deep_view().names),
    ensures
        rows.deep_view() == link_rows_of(r.deep_view(), id@),
{
    let mut rows: Vec<LinkRow> = Vec::new();
    let mut i: usize = 0;
    while i < r.links.len()
        invariant
            i <= r.links@.len(),
            ror_name@ == display_name_of(r.deep_view().names),
            rows.deep_view() == link_rows_of(r.deep_view(), id@).take(i as int),
        decreases r.links@.len() - i,
    {
        let e = &r.links[i];
        let ghost prev = rows.deep_view();
        rows.push(
            LinkRow {
                id: id.clone(),
                ror_name: ror_name.clone(),
                kind: e.kind,
                link: e.url.clone(),
            },
        );
        proof {
            let target = link_rows_of(r.deep_view(), id@);
            assert(rows.deep_view() =~= prev.push(target[i as int]));
            assert(prev.push(target[i as int]) =~= target.take(i as int + 1));
        }
        i += 1;
    }
    proof {
        assert(link_rows_of(r.deep_view(), id@).take(r.links@.len() as int) =~= link_rows_of(
            r.deep_view(),
            id@,
        ));
    }
    rows
}

/// All organization-type rows for one record, in entry order.
pub fn build_type_rows(r: &RorRecord, id: &String, ror_name: &String) -> (rows: Vec<TypeRow>)
    requires
        ror_name@ == display_name_of(r.deep_view().names),
    ensures
        rows.deep_view() == type_rows_of(r.deep_view(), id@),
{
    let mut rows: Vec<TypeRow> = Vec::new();
    let mut i: usize = 0;
    while i < r.types.len()
        invariant
            i <= r.types@.len(),
            ror_name@ == display_name_of(r.deep_view().names),
            rows.deep_view() == type_rows_of(r.deep_view(), id@).take(i as int),
        decreases r.types@.len() - i,
    {
        let ghost prev = rows.deep_view();
        rows.push(
            TypeRow { id: id.clone(), ror_name: ror_name.clone(), org_type: r.types[i].clone() },
        );
        proof {
            let target = type_rows_of(r.deep_view(), id@);
            assert(rows.deep_view() =~= prev.push(target[i as int]));
            assert(prev.push(target[i as int]) =~= target.take(i as int + 1));
        }
        i += 1;
    }
    proof {
        assert(type_rows_of(r.deep_view(), id@).take(r.types@.len() as int) =~= type_rows_of(
            r.deep_view(),
            id@,
        ));
    }
    rows
}

/// All relationship rows for one record, in entry order.
pub fn build_rel_rows(r: &RorRecord, id: &String, ror_name: &String) -> (rows: Vec<
    RelationshipRow,
>)
    requires
        ror_name@ == display_name_of(r.deep_view().names),
    ensures
        rows.deep_view() == rel_rows_of(r.deep_view(), id@),
{
    let mut rows: Vec<RelationshipRow> = Vec::new();
    let mut i: usize = 0;
    while i < r.relationships.len()
        invariant
            i <= r.relationships@.len(),
            ror_name@ == display_name_of(r.deep_view().names),
            rows.deep_view() == rel_rows_of(r.deep_view(), id@).take(i as int),
        decreases r.relationships@.len() - i,
    {
        let e = &r.relationships[i];
        let ghost prev = rows.deep_view();
        rows.push(
            RelationshipRow {
                id: id.clone(),
                ror_name: ror_name.clone(),
                rel_type: e.kind,
                related_id: e.related_id.clone(),
                related_name: e.related_name.clone(),
            },
        );
        proof {
            let target = rel_rows_of(r.deep_view(), id@);
            assert(rows.deep_view() =~= prev.push(target[i as int]));
            assert(prev.push(target[i as int]) =~= target.take(i as int + 1));
        }
        i += 1;
    }
    proof {
        assert(rel_rows_of(r.deep_view(), id@).take(r.relationships@.len() as int) =~= rel_rows_of(
            r.deep_view(),
            id@,
        ));
    }
    rows
}

/// All domain rows for one record, in entry order.
pub fn build_domain_rows(r: &RorRecord, id: &String, ror_name: &String) -> (rows: Vec<DomainRow>)
    requires
        ror_name@ == display_name_of(r.deep_view().names),
    ensures
        rows.deep_view() == domain_rows_of(r.deep_view(), id@),
{
    let mut rows: Vec<DomainRow> = Vec::new();
    let mut i: usize = 0;
    while i < r.domains.len()
        invariant
            i <= r.domains@.len(),
            ror_name@ == display_name_of(r.deep_view().names),
            rows.deep_view() == domain_rows_of(r.deep_view(), id@).take(i as int),
        decreases r.domains@.len() - i,
    {
        let ghost prev = rows.deep_view();
        rows.push(
            DomainRow { id: id.clone(), ror_name: ror_name.clone(), domain: r.domains[i].clone() },
        );
        proof {
            let target = domain_rows_of(r.deep_view(), id@);
            assert(rows.deep_view() =~= prev.push(target[i as int]));
            assert(prev.push(target[i as int]) =~= target.take(i as int + 1));
        }
        i += 1;
    }
    proof {
        assert(domain_rows_of(r.deep_view(), id@).take(r.domains@.len() as int) =~= domain_rows_of(
            r.deep_view(),
            id@,
        ));
    }
    rows
}

/// The single core row for one record.
pub fn build_core_row(r: &RorRecord, id: &String) -> (row: CoreRow)
    ensures
        row@ == core_row_of(r.deep_view(), id@),
{
    let ror_name = display_name(&r.names);
    let (status, established) = match &r.admin {
        Some(a) => (a.status.clone(), a.established),
        None => (String::new(), None),
    };
    let (location, country_code) = if r.locations.len() > 0 {
        (clone_opt_text(&r.locations[0].name), clone_opt_text(&r.locations[0].country_code))
    } else {
        (None, None)
    };
    CoreRow {
        id: id.clone(),
        full_id: r.id.clone(),
        ror_name,
        status,
        established,
        location,
        country_code,
    }
}

fn count_name_role(rows: &Vec<NameRow>, role: NameRole) -> (n: usize)
    ensures
        n as nat == crate::rows::count_matching(rows.deep_view(), role_pred(role)),
{
    let mut n: usize = 0;
    let mut i: usize = 0;
    while i < rows.len()
        invariant
            i <= rows@.len(),
            n <= i,
            n as nat == crate::rows::count_matching(
                rows.deep_view().take(i as int),
                role_pred(role),
            ),
        decreases rows@.len() - i,
    {
        if rows[i].role == role {
            n += 1;
        }
        i += 1;
        proof {
            assert(rows.deep_view().take(i as int).drop_last() =~= rows.deep_view().take(
                i as int - 1,
            ));
        }
    }
    proof {
        assert(rows.deep_view().take(rows@.len() as int) =~= rows.deep_view());
    }
    n
}

fn count_name_lang(rows: &Vec<NameRow>) -> (n: usize)
    ensures
        n as nat == crate::rows::count_matching(rows.deep_view(), lang_pred()),
{
    let mut n: usize = 0;
    let mut i: usize = 0;
    while i < rows.len()
        invariant
            i <= rows@.len(),
            n <= i,
            n as nat == crate::rows::count_matching(rows.deep_view().take(i as int), lang_pred()),
        decreases rows@.len() - i,
    {
        if rows[i].lang.is_some() {
            n += 1;
        }
        i += 1;
        proof {
            assert(rows.deep_view().take(i as int).drop_last() =~= rows.deep_view().take(
                i as int - 1,
            ));
        }
    }
    proof {
        assert(rows.deep_view().take(rows@.len() as int) =~= rows.deep_view());
    }
    n
}

fn count_ext_scheme(rows: &Vec<ExternalIdRow>, scheme: crate::records::IdScheme) -> (n: usize)
    ensures
        n as nat == crate::rows::count_matching(rows.deep_view(), scheme_pred(scheme)),
{
    let mut n: usize = 0;
    let mut i: usize = 0;
    while i < rows.len()
        invariant
            i <= rows@.len(),
            n <= i,
            n as nat == crate::rows::count_matching(
                rows.deep_view().take(i as int),
                scheme_pred(scheme),
            ),
        decreases rows@.len() - i,
    {
        if rows[i].scheme == scheme {
            n += 1;
        }
        i += 1;
        proof {
            assert(rows.deep_view().take(i as int).drop_last() =~= rows.deep_view().take(
                i as int - 1,
            ));
        }
    }
    proof {
        assert(rows.deep_view().take(rows@.len() as int) =~= rows.deep_view());
    }
    n
}

fn count_link_kind(rows: &Vec<LinkRow>, kind: crate::records::LinkKind) -> (n: usize)
    ensures
        n as nat == crate::rows::count_matching(rows.deep_view(), link_pred(kind)),
{
    let mut n: usize = 0;
    let mut i: usize = 0;
    while i < rows.len()
        invariant
            i <= rows@.len(),
            n <= i,
            n as nat == crate::rows::count_matching(
                rows.deep_view().take(i as int),
                link_pred(kind),
            ),
        decreases rows@.len() - i,
    {
        if rows[i].kind == kind {
            n += 1;
        }
        i += 1;
        proof {
            assert(rows.deep_view().take(i as int).drop_last() =~= rows.deep_view().take(
                i as int - 1,
            ));
        }
    }
    proof {
        assert(rows.deep_view().take(rows@.len() as int) =~= rows.deep_view());
    }
    n
}

fn count_rel_kind(rows: &Vec<RelationshipRow>, kind: crate::records::RelKind) -> (n: usize)
    ensures
        n as nat == crate::rows::count_matching(rows.deep_view(), rel_pred(kind)),
{
    let mut n: usize = 0;
    let mut i: usize = 0;
    while i < rows.len()
        invariant
            i <= rows@.len(),
            n <= i,
            n as nat == crate::rows::count_matching(
                rows.deep_view().take(i as int),
                rel_pred(kind),
            ),
        decreases rows@.len() - i,
    {
        if rows[i].rel_type == kind {
            n += 1;
        }
        i += 1;
        proof {
            assert(rows.deep_view().take(i as int).drop_last() =~= rows.deep_view().take(
                i as int - 1,
            ));
        }
    }
    proof {
        assert(rows.deep_view().take(rows@.len() as int) =~= rows.deep_view());
    }
    n
}

/// The single admin row for one record, its counters computed from the very
/// row sets the detail tables receive.
pub fn build_admin_row(r: &RorRecord, id: &String, stamp: &Stamp) -> (row: AdminRow)
    ensures
        row@ == admin_row_of(r.deep_view(), id@, stamp@),
{
    let ror_name = display_name(&r.names);
    let nrows = build_name_rows(&r.names, id);
    let erows = build_ext_id_rows(r, id, &ror_name);
    let lrows = build_link_rows(r, id, &ror_name);
    let rrows = build_rel_rows(r, id, &ror_name);
    AdminRow {
        id: id.clone(),
        ror_name,
        n_locs: r.locations.len(),
        n_labels: count_name_role(&nrows, NameRole::Label),
        n_aliases: count_name_role(&nrows, NameRole::Alias),
        n_acronyms: count_name_role(&nrows, NameRole::Acronym),
        n_names: nrows.len(),
        n_langcodes: count_name_lang(&nrows),
        n_isni: count_ext_scheme(&erows, crate::records::IdScheme::Isni),
        n_grid: count_ext_scheme(&erows, crate::records::IdScheme::Grid),
        n_fundref: count_ext_scheme(&erows, crate::records::IdScheme::Fundref),
        n_wikidata: count_ext_scheme(&erows, crate::records::IdScheme::Wikidata),
        n_wikipaedia: count_link_kind(&lrows, crate::records::LinkKind::Wikipedia),
        n_website: count_link_kind(&lrows, crate::records::LinkKind::Website),
        n_types: r.types.len(),
        n_relrels: count_rel_kind(&rrows, crate::records::RelKind::Related),
        n_parrels: count_rel_kind(&rrows, crate::records::RelKind::Parent),
        n_chrels: count_rel_kind(&rrows, crate::records::RelKind::Child),
        n_sucrels: count_rel_kind(&rrows, crate::records::RelKind::Successor),
        n_predrels: count_rel_kind(&rrows, crate::records::RelKind::Predecessor),
        n_doms: r.domains.len(),
        created: stamp.date.clone(),
        cr_schema: stamp.schema.clone(),
        last_modified: stamp.date.clone(),
        lm_schema: stamp.schema.clone(),
    }
}

/// The singleton-table group: one core row and one admin row per record.
pub struct CoreDataVecs {
    pub core_data: Vec<CoreRow>,
    pub admin_data: Vec<AdminRow>,
}

/// The guaranteed-repeating group: names and organization types.
pub struct RequiredDataVecs {
    pub names: Vec<NameRow>,
    pub types: Vec<TypeRow>,
}

/// The optional-repeating group: locations, external identifiers, links,
/// relationships and domains.
pub struct NonRequiredDataVecs {
    pub locations: Vec<LocationRow>,
    pub external_ids: Vec<ExternalIdRow>,
    pub links: Vec<LinkRow>,
    pub relationships: Vec<RelationshipRow>,
    pub domains: Vec<DomainRow>,
}

impl CoreDataVecs {
    pub fn new() -> (r: Self)
        ensures
            r.core_data.deep_view() == Seq::<CoreRowV>::empty(),
            r.admin_data.deep_view() == Seq::<AdminRowV>::empty(),
    {
        let r = CoreDataVecs { core_data: Vec::new(), admin_data: Vec::new() };
        proof {
            assert(r.core_data.deep_view() =~= Seq::<CoreRowV>::empty());
            assert(r.admin_data.deep_view() =~= Seq::<AdminRowV>::empty());
        }
        r
    }

    /// Appends the record's single core row and single admin row.
    pub fn add_core_data(&mut self, r: &RorRecord, db_id: &String, stamp: &Stamp)
        ensures
            final(self).core_data.deep_view() == old(self).core_data.deep_view().push(
                core_row_of(r.deep_view(), db_id@),
            ),
            final(self).admin_data.deep_view() == old(self).admin_data.deep_view().push(
                admin_row_of(r.deep_view(), db_id@, stamp@),
            ),
    {
        let core = build_core_row(r, db_id);
        let admin = build_admin_row(r, db_id, stamp);
        let ghost c0 = self.core_data.deep_view();
        let ghost a0 = self.admin_data.deep_view();
        self.core_data.push(core);
        self.admin_data.push(admin);
        proof {
            assert(self.core_data.deep_view() =~= c0.push(core_row_of(r.deep_view(), db_id@)));
            assert(self.admin_data.deep_view() =~= a0.push(
                admin_row_of(r.deep_view(), db_id@, stamp@),
            ));
        }
    }

    /// Hands the buffered rows out and leaves the buffers empty.
    pub fn take(&mut self) -> (out: CoreDataVecs)
        ensures
            out.core_data == old(self).core_data,
            out.admin_data == old(self).admin_data,
            final(self).core_data.deep_view() == Seq::<CoreRowV>::empty(),
            final(self).admin_data.deep_view() == Seq::<AdminRowV>::empty(),
    {
        let mut out = CoreDataVecs::new();
        core::mem::swap(&mut out, self);
        out
    }
}

impl RequiredDataVecs {
    pub fn new() -> (r: Self)
        ensures
            r.names.deep_view() == Seq::<NameRowV>::empty(),
            r.types.deep_view() == Seq::<TypeRowV>::empty(),
    {
        let r = RequiredDataVecs { names: Vec::new(), types: Vec::new() };
        proof {
            assert(r.names.deep_view() =~= Seq::<NameRowV>::empty());
            assert(r.types.deep_view() =~= Seq::<TypeRowV>::empty());
        }
        r
    }

    /// Appends the record's name rows and organization-type rows.
    pub fn add_required_data(&mut self, r: &RorRecord, db_id: &String)
        ensures
            final(self).names.deep_view() == old(self).names.deep_view() + name_rows_of(
                r.deep_view(),
                db_id@,
            ),
            final(self).types.deep_view() == old(self).types.deep_view() + type_rows_of(
                r.deep_view(),
                db_id@,
            ),
    {
        let ror_name = display_name(&r.names);
        let mut nrows = build_name_rows(&r.names, db_id);
        let mut trows = build_type_rows(r, db_id, &ror_name);
        let ghost n0 = self.names.deep_view();
        let ghost t0 = self.types.deep_view();
        let ghost ns = nrows.deep_view();
        let ghost ts = trows.deep_view();
        self.names.append(&mut nrows);
        self.types.append(&mut trows);
        proof {
            assert(self.names.deep_view() =~= n0 + ns);
            assert(self.types.deep_view() =~= t0 + ts);
        }
    }

    /// Hands the buffered rows out and leaves the buffers empty.
    pub fn take(&mut self) -> (out: RequiredDataVecs)
        ensures
            out.names == old(self).names,
            out.types == old(self).types,
            final(self).names.deep_view() == Seq::<NameRowV>::empty(),
            final(self).types.deep_view() == Seq::<TypeRowV>::empty(),
    {
        let mut out = RequiredDataVecs::new();
        core::mem::swap(&mut out, self);
        out
    }
}

impl NonRequiredDataVecs {
    pub fn new() -> (r: Self)
        ensures
            r.locations.deep_view() == Seq::<LocationRowV>::empty(),
            r.external_ids.deep_view() == Seq::<ExternalIdRowV>::empty(),
            r.links.deep_view() == Seq::<LinkRowV>::empty(),
            r.relationships.deep_view() == Seq::<RelationshipRowV>::empty(),
            r.domains.deep_view() == Seq::<DomainRowV>::empty(),
    {
        let r = NonRequiredDataVecs {
            locations: Vec::new(),
            external_ids: Vec::new(),
            links: Vec::new(),
            relationships: Vec::new(),
            domains: Vec::new(),
        };
        proof {
            assert(r.locations.deep_view() =~= Seq::<LocationRowV>::empty());
            assert(r.external_ids.deep_view() =~= Seq::<ExternalIdRowV>::empty());
            assert(r.links.deep_view() =~= Seq::<LinkRowV>::empty());
            assert(r.relationships.deep_view() =~= Seq::<RelationshipRowV>::empty());
            assert(r.domains.deep_view() =~= Seq::<DomainRowV>::empty());
        }
        r
    }

    /// Appends the record's location, external-identifier, link, relationship
    /// and domain rows.
    pub fn add_non_required_data(&mut self, r: &RorRecord, db_id: &String)
        ensures
            final(self).locations.deep_view() == old(self).locations.deep_view()
                + location_rows_of(r.deep_view(), db_id@),
            final(self).external_ids.deep_view() == old(self).external_ids.deep_view()
                + ext_id_rows_of(r.deep_view(), db_id@),
            final(self).links.deep_view() == old(self).links.deep_view() + link_rows_of(
                r.deep_view(),
                db_id@,
            ),
            final(self).relationships.deep_view() == old(self).relationships.deep_view()
                + rel_rows_of(r.deep_view(), db_id@),
            final(self).domains.deep_view() == old(self).domains.deep_view() + domain_rows_of(
                r.deep_view(),
                db_id@,
            ),
    {
        let ror_name = display_name(&r.names);
        let mut lrows = build_location_rows(r, db_id, &ror_name);
        let mut erows = build_ext_id_rows(r, db_id, &ror_name);
        let mut krows = build_link_rows(r, db_id, &ror_name);
        let mut rrows = build_rel_rows(r, db_id, &ror_name);
        let mut drows = build_domain_rows(r, db_id, &ror_name);
        let ghost l0 = self.locations.deep_view();
        let ghost e0 = self.external_ids.deep_view();
        let ghost k0 = self.links.deep_view();
        let ghost r0 = self.relationships.deep_view();
        let ghost d0 = self.domains.deep_view();
        let ghost ls = lrows.deep_view();
        let ghost es = erows.deep_view();
        let ghost ks = krows.deep_view();
        let ghost rs = rrows.deep_view();
        let ghost ds = drows.deep_view();
        self.locations.append(&mut lrows);
        self.external_ids.append(&mut erows);
        self.links.append(&mut krows);
        self.relationships.append(&mut rrows);
        self.domains.append(&mut drows);
        proof {
            assert(self.locations.deep_view() =~= l0 + ls);
            assert(self.external_ids.deep_view() =~= e0 + es);
            assert(self.links.deep_view() =~= k0 + ks);
            assert(self.relationships.deep_view() =~= r0 + rs);
            assert(self.domains.deep_view() =~= d0 + ds);
        }
    }

    /// Hands the buffered rows out and leaves the buffers empty.
    pub fn take(&mut self) -> (out: NonRequiredDataVecs)
        ensures
            out.locations == old(self).locations,
            out.external_ids == old(self).external_ids,
            out.links == old(self).links,
            out.relationships == old(self).relationships,
            out.domains == old(self).domains,
            final(self).locations.deep_view() == Seq::<LocationRowV>::empty(),
            final(self).external_ids.deep_view() == Seq::<ExternalIdRowV>::empty(),
            final(self).links.deep_view() == Seq::<LinkRowV>::empty(),
            final(self).relationships.deep_view() == Seq::<RelationshipRowV>::empty(),
            final(self).domains.deep_view() == Seq::<DomainRowV>::empty(),
    {
        let mut out = NonRequiredDataVecs::new();
        core::mem::swap(&mut out, self);
        out
    }
}

} // verus!
