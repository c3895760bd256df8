//! The import orchestrator's core: an accumulate-and-flush session over the
//! three row-set groups, with a fixed batch cadence and a final flush, and a
//! pure batch planner that states what a whole run writes.

use vstd::prelude::*;

use crate::ident::{canon_id_of, extract_id_from};
use crate::records::{RorRecord, RorRecordV};
use crate::rows::{
    admin_row_of, core_row_of, domain_rows_of, ext_id_rows_of, link_rows_of, location_rows_of,
    name_rows_of, rel_rows_of, type_rows_of, AdminRowV, CoreRowV, DomainRowV, ExternalIdRowV,
    LinkRowV, LocationRowV, NameRowV, RelationshipRowV, Stamp, StampV, TypeRowV,
};
use crate::vectors::{CoreDataVecs, NonRequiredDataVecs, RequiredDataVecs};

verus! {

/// The core row a record contributes, keyed by its canonical identifier.
pub open spec fn core_row_fn() -> spec_fn(RorRecordV) -> CoreRowV {
    |r: RorRecordV| core_row_of(r, canon_id_of(r.id))
}

/// The admin row a record contributes, keyed by its canonical identifier.
pub open spec fn admin_row_fn(stamp: StampV) -> spec_fn(RorRecordV) -> AdminRowV {
    |r: RorRecordV| admin_row_of(r, canon_id_of(r.id), stamp)
}

pub open spec fn name_rows_fn() -> spec_fn(RorRecordV) -> Seq<NameRowV> {
    |r: RorRecordV| name_rows_of(r, canon_id_of(r.id))
}

pub open spec fn type_rows_fn() -> spec_fn(RorRecordV) -> Seq<TypeRowV> {
    |r: RorRecordV| type_rows_of(r, canon_id_of(r.id))
}

pub open spec fn location_rows_fn() -> spec_fn(RorRecordV) -> Seq<LocationRowV> {
    |r: RorRecordV| location_rows_of(r, canon_id_of(r.id))
}

pub open spec fn ext_id_rows_fn() -> spec_fn(RorRecordV) -> Seq<ExternalIdRowV> {
    |r: RorRecordV| ext_id_rows_of(r, canon_id_of(r.id))
}

pub open spec fn link_rows_fn() -> spec_fn(RorRecordV) -> Seq<LinkRowV> {
    |r: RorRecordV| link_rows_of(r, canon_id_of(r.id))
}

pub open spec fn rel_rows_fn() -> spec_fn(RorRecordV) -> Seq<RelationshipRowV> {
    |r: RorRecordV| rel_rows_of(r, canon_id_of(r.id))
}

pub open spec fn domain_rows_fn() -> spec_fn(RorRecordV) -> Seq<DomainRowV> {
    |r: RorRecordV| domain_rows_of(r, canon_id_of(r.id))
}

/// One core row per record, in record order.
pub open spec fn core_rows_of_records(rs: Seq<RorRecordV>) -> Seq<CoreRowV> {
    rs.map_values(core_row_fn())
}

/// One admin row per record, in record order.
pub open spec fn admin_rows_of_records(rs: Seq<RorRecordV>, stamp: StampV) -> Seq<AdminRowV> {
    rs.map_values(admin_row_fn(stamp))
}

/// The rows that the records of `rs` from position `i` on contribute to one
/// detail table, record by record, in record order.
pub open spec fn concat_rows<T>(rs: Seq<RorRecordV>, f: spec_fn(RorRecordV) -> Seq<T>, i: int) -> Seq<
    T,
>
    decreases rs.len() - i,
{
    if i < 0 || i >= rs.len() {
        Seq::<T>::empty()
    } else {
        f(rs[i]) + concat_rows(rs, f, i + 1)
    }
}

proof fn lemma_concat_rows_push<T>(
    rs: Seq<RorRecordV>,
    rv: RorRecordV,
    f: spec_fn(RorRecordV) -> Seq<T>,
    i: int,
)
    requires
        0 <= i <= rs.len(),
    ensures
        concat_rows(rs.push(rv), f, i) == concat_rows(rs, f, i) + f(rv),
    decreases rs.len() - i,
{
    if i == rs.len() {
        assert(rs.push(rv)[i] == rv);
        assert(concat_rows(rs.push(rv), f, i + 1) =~= Seq::<T>::empty());
        assert(concat_rows(rs, f, i) =~= Seq::<T>::empty());
        assert(concat_rows(rs.push(rv), f, i) =~= concat_rows(rs, f, i) + f(rv));
    } else {
        lemma_concat_rows_push(rs, rv, f, i + 1);
        assert(rs.push(rv)[i] == rs[i]);
        assert(f(rs[i]) + (concat_rows(rs, f, i + 1) + f(rv)) =~= (f(rs[i]) + concat_rows(
            rs,
            f,
            i + 1,
        )) + f(rv));
    }
}

/// Law: the singleton tables get exactly one row per record, so a run's
/// processed-record count can be read off either singleton group's row
/// count, whatever the detail fan-out was.
pub proof fn lemma_one_singleton_row_per_record(rs: Seq<RorRecordV>, stamp: StampV)
    ensures
        core_rows_of_records(rs).len() == rs.len(),
        admin_rows_of_records(rs, stamp).len() == rs.len(),
{
}

/// One flushed batch: the rows of every table of the three groups, for one
/// run of consecutively processed records.
pub struct BatchPayload {
    pub core: CoreDataVecs,
    pub required: RequiredDataVecs,
    pub non_required: NonRequiredDataVecs,
}

/// The payload holds, for each of the nine tables, exactly the rows that the
/// records of `rs` fan out into, in record order.
pub open spec fn payload_matches(p: BatchPayload, rs: Seq<RorRecordV>, stamp: StampV) -> bool {
    &&& p.core.core_data.deep_view() == core_rows_of_records(rs)
    &&& p.core.admin_data.deep_view() == admin_rows_of_records(rs, stamp)
    &&& p.required.names.deep_view() == concat_rows(rs, name_rows_fn(), 0)
    &&& p.required.types.deep_view() == concat_rows(rs, type_rows_fn(), 0)
    &&& p.non_required.locations.deep_view() == concat_rows(rs, location_rows_fn(), 0)
    &&& p.non_required.external_ids.deep_view() == concat_rows(rs, ext_id_rows_fn(), 0)
    &&& p.non_required.links.deep_view() == concat_rows(rs, link_rows_fn(), 0)
    &&& p.non_required.relationships.deep_view() == concat_rows(rs, rel_rows_fn(), 0)
    &&& p.non_required.domains.deep_view() == concat_rows(rs, domain_rows_fn(), 0)
}

/// An accumulate-and-flush session. Records are added one at a time; when the
/// buffered run reaches the batch size the buffers are handed out and reset,
/// and `finish` hands out whatever remains.
pub struct ImportSession {
    pub batch_size: usize,
    pub processed: usize,
    pub flushed: usize,
    pub stamp: Stamp,
    pub core: CoreDataVecs,
    pub required: RequiredDataVecs,
    pub non_required: NonRequiredDataVecs,
    pub pending: Ghost<Seq<RorRecordV>>,
}

impl ImportSession {
    /// The session's buffers hold exactly the fan-out of the records added
    /// since the last flush, and fewer than one full batch of them.
    pub open spec fn wf(self) -> bool {
        &&& self.batch_size >= 1
        &&& self.pending@.len() < self.batch_size
        &&& self.processed == self.flushed + self.pending@.len()
        &&& self.core.core_data.deep_view() == core_rows_of_records(self.pending@)
        &&& self.core.admin_data.deep_view() == admin_rows_of_records(self.pending@, self.stamp@)
        &&& self.required.names.deep_view() == concat_rows(self.pending@, name_rows_fn(), 0)
        &&& self.required.types.deep_view() == concat_rows(self.pending@, type_rows_fn(), 0)
        &&& self.non_required.locations.deep_view() == concat_rows(
            self.pending@,
            location_rows_fn(),
            0,
        )
        &&& self.non_required.external_ids.deep_view() == concat_rows(
            self.pending@,
            ext_id_rows_fn(),
            0,
        )
        &&& self.non_required.links.deep_view() == concat_rows(self.pending@, link_rows_fn(), 0)
        &&& self.non_required.relationships.deep_view() == concat_rows(
            self.pending@,
            rel_rows_fn(),
            0,
        )
        &&& self.non_required.domains.deep_view() == concat_rows(self.pending@, domain_rows_fn(), 0)
    }

    pub fn new(batch_size: usize, stamp: Stamp) -> (s: Self)
        requires
            batch_size >= 1,
        ensures
            s.wf(),
            s.batch_size == batch_size,
            s.stamp == stamp,
            s.processed == 0,
            s.flushed == 0,
            s.pending@ == Seq::<RorRecordV>::empty(),
    {
        let s = ImportSession {
            batch_size,
            processed: 0,
            flushed: 0,
            stamp,
            core: CoreDataVecs::new(),
            required: RequiredDataVecs::new(),
            non_required: NonRequiredDataVecs::new(),
            pending: Ghost(Seq::<RorRecordV>::empty()),
        };
        proof {
            assert(core_rows_of_records(s.pending@) =~= Seq::<CoreRowV>::empty());
            assert(admin_rows_of_records(s.pending@, s.stamp@) =~= Seq::<AdminRowV>::empty());
        }
        s
    }

    /// Extracts the record's canonical identifier, fans the record out into
    /// all three groups, and, when the buffered run has reached the batch
    /// size, hands the buffers out and resets them.
    pub fn add_record(&mut self, r: &RorRecord) -> (flush: Option<BatchPayload>)
        requires
            old(self).wf(),
            old(self).processed < usize::MAX,
            r.deep_view().id.len() > 0,
        ensures
            final(self).wf(),
            final(self).batch_size == old(self).batch_size,
            final(self).stamp == old(self).stamp,
            final(self).processed == old(self).processed + 1,
            match flush {
                Some(p) => {
                    &&& old(self).pending@.len() + 1 == old(self).batch_size
                    &&& payload_matches(
                        p,
                        old(self).pending@.push(r.deep_view()),
                        old(self).stamp@,
                    )
                    &&& final(self).pending@ == Seq::<RorRecordV>::empty()
                    &&& final(self).flushed == old(self).processed + 1
                },
                None => {
                    &&& old(self).pending@.len() + 1 < old(self).batch_size
                    &&& final(self).pending@ == old(self).pending@.push(r.deep_view())
                    &&& final(self).flushed == old(self).flushed
                },
            },
    {
        let db_id = extract_id_from(r.id.as_str());
        let ghost ps = self.pending@;
        let ghost rv = r.deep_view();
        self.core.add_core_data(r, &db_id, &self.stamp);
        self.required.add_required_data(r, &db_id);
        self.non_required.add_non_required_data(r, &db_id);
        self.processed += 1;
        self.pending = Ghost(self.pending@.push(r.deep_view()));
        proof {
            assert(core_rows_of_records(ps.push(rv)) =~= core_rows_of_records(ps).push(
                core_row_fn()(rv),
            ));
            assert(admin_rows_of_records(ps.push(rv), self.stamp@) =~= admin_rows_of_records(
                ps,
                self.stamp@,
            ).push(admin_row_fn(self.stamp@)(rv)));
            lemma_concat_rows_push(ps, rv, name_rows_fn(), 0);
            lemma_concat_rows_push(ps, rv, type_rows_fn(), 0);
            lemma_concat_rows_push(ps, rv, location_rows_fn(), 0);
            lemma_concat_rows_push(ps, rv, ext_id_rows_fn(), 0);
            lemma_concat_rows_push(ps, rv, link_rows_fn(), 0);
            lemma_concat_rows_push(ps, rv, rel_rows_fn(), 0);
            lemma_concat_rows_push(ps, rv, domain_rows_fn(), 0);
        }
        if self.processed - self.flushed == self.batch_size {
            let payload = BatchPayload {
                core: self.core.take(),
                required: self.required.take(),
                non_required: self.non_required.take(),
            };
            self.flushed = self.processed;
            self.pending = Ghost(Seq::<RorRecordV>::empty());
            proof {
                assert(core_rows_of_records(self.pending@) =~= Seq::<CoreRowV>::empty());
                assert(admin_rows_of_records(self.pending@, self.stamp@) =~= Seq::<
                    AdminRowV,
                >::empty());
            }
            Some(payload)
        } else {
            None
        }
    }

    /// The final flush: hands out whatever the buffers hold, a run of fewer
    /// than `batch_size` records, possibly none at all.
    pub fn finish(self) -> (p: BatchPayload)
        requires
            self.wf(),
        ensures
            payload_matches(p, self.pending@, self.stamp@),
    {
        let mut s = self;
        BatchPayload {
            core: s.core.take(),
            required: s.required.take(),
            non_required: s.non_required.take(),
        }
    }
}

/// The core rows of a whole batch plan, payload after payload.
pub open spec fn plan_core_rows(plan: Seq<BatchPayload>, i: int) -> Seq<CoreRowV>
    decreases plan.len() - i,
{
    if i < 0 || i >= plan.len() {
        Seq::<CoreRowV>::empty()
    } else {
        plan[i].core.core_data.deep_view() + plan_core_rows(plan, i + 1)
    }
}

proof fn lemma_plan_core_rows_push(plan: Seq<BatchPayload>, p: BatchPayload, i: int)
    requires
        0 <= i <= plan.len(),
    ensures
        plan_core_rows(plan.push(p), i) == plan_core_rows(plan, i) + p.core.core_data.deep_view(),
    decreases plan.len() - i,
{
    if i == plan.len() {
        assert(plan.push(p)[i] == p);
        assert(plan_core_rows(plan.push(p), i + 1) =~= Seq::<CoreRowV>::empty());
        assert(plan_core_rows(plan, i) =~= Seq::<CoreRowV>::empty());
        assert(plan_core_rows(plan.push(p), i) =~= plan_core_rows(plan, i)
            + p.core.core_data.deep_view());
    } else {
        lemma_plan_core_rows_push(plan, p, i + 1);
        assert(plan.push(p)[i] == plan[i]);
        assert(plan[i].core.core_data.deep_view() + (plan_core_rows(plan, i + 1)
            + p.core.core_data.deep_view()) =~= (plan[i].core.core_data.deep_view()
            + plan_core_rows(plan, i + 1)) + p.core.core_data.deep_view());
    }
}

proof fn lemma_core_rows_subrange_extend(rs: Seq<RorRecordV>, a: int, b: int)
    requires
        0 <= a <= b <= rs.len(),
    ensures
        core_rows_of_records(rs.take(a)) + core_rows_of_records(rs.subrange(a, b))
            == core_rows_of_records(rs.take(b)),
{
    assert(core_rows_of_records(rs.take(a)) + core_rows_of_records(rs.subrange(a, b))
        =~= core_rows_of_records(rs.take(b)));
}

/// Drives a whole import run without storage: feeds every record of
/// `records`, in order, through an accumulate-and-flush session with batch
/// size `batch_size`, and returns the flushed payloads, the final partial
/// flush included. The plan's core rows, payload after payload, are exactly
/// one row per source record, in source order: no batch boundary drops or
/// duplicates a record.
pub fn batch_plan(records: &Vec<RorRecord>, batch_size: usize, stamp: Stamp) -> (plan: Vec<
    BatchPayload,
>)
    requires
        batch_size >= 1,
        records@.len() < usize::MAX,
        forall|i: int|
            0 <= i < records.deep_view().len() ==> records.deep_view()[i].id.len() > 0,
    ensures
        plan_core_rows(plan@, 0) == core_rows_of_records(records.deep_view()),
        plan_core_rows(plan@, 0).len() == records@.len(),
        plan@.len() == records@.len() as int / batch_size as int + 1,
        forall|k: int|
            0 <= k < plan@.len() - 1 ==> #[trigger] plan@[k].core.core_data.deep_view().len()
                == batch_size,
        plan@[plan@.len() - 1].core.core_data.deep_view().len() == records@.len() as int
            % batch_size as int,
        forall|k: int|
            0 <= k < plan@.len() ==> payload_matches(
                #[trigger] plan@[k],
                records.deep_view().subrange(
                    k * batch_size,
                    if (k + 1) * batch_size <= records.deep_view().len() {
                        (k + 1) * batch_size
                    } else {
                        records.deep_view().len() as int
                    },
                ),
                stamp@,
            ),
{
    let ghost rs = records.deep_view();
    let mut session = ImportSession::new(batch_size, stamp);
    let mut plan: Vec<BatchPayload> = Vec::new();
    let ghost mut n_flushes: int = 0;
    let mut i: usize = 0;
    proof {
        assert(rs.take(0) =~= Seq::<RorRecordV>::empty());
        assert(core_rows_of_records(rs.take(0)) =~= Seq::<CoreRowV>::empty());
        assert(rs.subrange(0, 0) =~= Seq::<RorRecordV>::empty());
    }
    while i < records.len()
        invariant
            i <= records@.len(),
            rs == records.deep_view(),
            rs.len() == records@.len(),
            records@.len() < usize::MAX,
            forall|j: int| 0 <= j < rs.len() ==> rs[j].id.len() > 0,
            session.wf(),
            session.batch_size == batch_size,
            session.stamp == stamp,
            session.processed == i,
            session.flushed <= i,
            session.pending@ == rs.subrange(session.flushed as int, i as int),
            plan@.len() == n_flushes,
            session.flushed == n_flushes * batch_size,
            plan_core_rows(plan@, 0) == core_rows_of_records(rs.take(session.flushed as int)),
            forall|k: int|
                0 <= k < plan@.len() ==> #[trigger] plan@[k].core.core_data.deep_view().len()
                    == batch_size,
            forall|k: int|
                0 <= k < plan@.len() ==> payload_matches(
                    #[trigger] plan@[k],
                    rs.subrange(k * batch_size, (k + 1) * batch_size),
                    stamp@,
                ),
        decreases records@.len() - i,
    {
        let ghost flushed_before = session.flushed as int;
        let ghost pending_before = session.pending@;
        assert(rs[i as int].id.len() > 0);
        assert(records.deep_view()[i as int] == records@[i as int].deep_view());
        let flush = session.add_record(&records[i]);
        i += 1;
        match flush {
            Some(p) => {
                let ghost plan_before = plan@;
                proof {
                    assert(session.flushed == i);
                    assert(pending_before.push(rs[i - 1]) =~= rs.subrange(
                        flushed_before,
                        i as int,
                    ));
                    assert((i as int) - flushed_before == batch_size);
                }
                plan.push(p);
                proof {
                    n_flushes = n_flushes + 1;
                    assert(plan@ == plan_before.push(p));
                    lemma_plan_core_rows_push(plan_before, p, 0);
                    assert(p.core.core_data.deep_view() == core_rows_of_records(
                        rs.subrange(flushed_before, i as int),
                    ));
                    lemma_core_rows_subrange_extend(rs, flushed_before, i as int);
                    assert(core_rows_of_records(rs.subrange(flushed_before, i as int)).len()
                        == batch_size);
                    assert(flushed_before == (n_flushes - 1) * batch_size);
                    assert(i as int == n_flushes * batch_size) by (nonlinear_arith)
                        requires
                            flushed_before == (n_flushes - 1) * batch_size,
                            (i as int) - flushed_before == batch_size,
                    ;
                    assert forall|k: int|
                        0 <= k < plan@.len() implies #[trigger] plan@[k].core.core_data.deep_view().len()
                        == batch_size by {
                        if k < plan@.len() - 1 {
                            assert(plan@[k] == plan_before[k]);
                        } else {
                            assert(plan@[k] == p);
                        }
                    }
                    assert forall|k: int| 0 <= k < plan@.len() implies payload_matches(
                        #[trigger] plan@[k],
                        rs.subrange(k * batch_size, (k + 1) * batch_size),
                        stamp@,
                    ) by {
                        if k < plan@.len() - 1 {
                            assert(plan@[k] == plan_before[k]);
                        } else {
                            assert(plan@[k] == p);
                            assert(k == n_flushes - 1);
                            assert(k * batch_size == flushed_before) by (nonlinear_arith)
                                requires
                                    k == n_flushes - 1,
                                    flushed_before == (n_flushes - 1) * batch_size,
                            ;
                            assert((k + 1) * batch_size == i as int) by (nonlinear_arith)
                                requires
                                    k == n_flushes - 1,
                                    i as int == n_flushes * batch_size,
                            ;
                        }
                    }
                    assert(session.pending@ =~= rs.subrange(session.flushed as int, i as int));
                }
            },
            None => {
                proof {
                    assert(pending_before.push(rs[i - 1]) =~= rs.subrange(
                        flushed_before,
                        i as int,
                    ));
                }
            },
        }
    }
    let ghost final_pending = session.pending@;
    let last = session.finish();
    let ghost plan_before = plan@;
    plan.push(last);
    proof {
        assert(plan@ == plan_before.push(last));
        lemma_plan_core_rows_push(plan_before, last, 0);
        assert(last.core.core_data.deep_view() == core_rows_of_records(final_pending));
        lemma_core_rows_subrange_extend(rs, n_flushes * batch_size, rs.len() as int);
        assert(rs.take(rs.len() as int) =~= rs);
        assert(final_pending == rs.subrange(n_flushes * batch_size, rs.len() as int));
        assert(plan_core_rows(plan@, 0) == core_rows_of_records(rs));
        assert(core_rows_of_records(rs).len() == rs.len());
        let l = rs.len() as int;
        let b = batch_size as int;
        let rem = l - n_flushes * b;
        assert(0 <= rem < b);
        vstd::arithmetic::div_mod::lemma_fundamental_div_mod_converse(l, b, n_flushes, rem);
        assert(plan@.len() == l / b + 1);
        assert(plan@[plan@.len() - 1] == last);
        assert(last.core.core_data.deep_view().len() == rem);
        assert forall|k: int| 0 <= k < plan@.len() implies payload_matches(
            #[trigger] plan@[k],
            rs.subrange(
                k * batch_size,
                if (k + 1) * batch_size <= rs.len() {
                    (k + 1) * batch_size
                } else {
                    rs.len() as int
                },
            ),
            stamp@,
        ) by {
            if k < plan@.len() - 1 {
                assert(plan@[k] == plan_before[k]);
                assert((k + 1) * batch_size <= n_flushes * batch_size) by (nonlinear_arith)
                    requires
                        k + 1 <= n_flushes,
                        batch_size >= 1,
                ;
                assert(n_flushes * batch_size <= rs.len());
            } else {
                assert(plan@[k] == last);
                assert(k == n_flushes);
                assert(k * batch_size == n_flushes * batch_size);
                if (k + 1) * batch_size <= rs.len() {
                    assert((k + 1) * batch_size == n_flushes * batch_size + batch_size) by (
                    nonlinear_arith)
                        requires
                            k == n_flushes,
                    ;
                    assert(false);
                }
            }
        }
    }
    plan
}

} // verus!
