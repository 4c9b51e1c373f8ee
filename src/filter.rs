use crate::date::{CalendarDate, archive_date_of, date_of_parts, parse_post_date};
use crate::decimal::{decimal_u64, parse_u64};
use vstd::prelude::*;

verus! {

/// The fields of an archived post that the deletion needs.
#[derive(Clone, Debug, PartialEq, Eq)]
pub struct PostFields {
    /// The post's identifier, as decimal text.
    pub id: String,
    /// The creation timestamp, as `Wed Oct 10 20:19:24 +0000 2018`.
    pub created_at: String,
}

/// One entry of an exported archive. `post` is `None` for a placeholder with
/// no deletable post; `raw` is the entry as it was read, carried through
/// untouched so that pending work can be written back in its original shape.
#[derive(Clone, Debug, PartialEq, Eq)]
pub struct ArchiveRecord<R> {
    pub post: Option<PostFields>,
    pub raw: R,
}

/// A post queued for deletion.
#[derive(Clone, Debug, PartialEq, Eq)]
pub struct WorkItem<R> {
    pub id: u64,
    pub raw: R,
}

/// Which side of the cutoff is deleted.
#[derive(Clone, Copy, Debug, PartialEq, Eq, Structural)]
pub enum Direction {
    /// Posts created on a day before the cutoff.
    Before,
    /// Posts created on a day after the cutoff.
    After,
}

#[derive(Clone, Copy, Debug, PartialEq, Eq, Structural)]
pub enum FilterError {
    /// The record at this position has a post whose timestamp or identifier
    /// does not parse.
    MalformedRecord { index: usize },
}

/// The creation day of a post, if its timestamp parses.
pub open spec fn post_date(p: PostFields) -> Option<CalendarDate> {
    date_of_parts(archive_date_of(p.created_at@))
}

/// A placeholder, or a post whose timestamp and identifier both parse.
pub open spec fn well_formed<R>(r: ArchiveRecord<R>) -> bool {
    match r.post {
        None => true,
        Some(p) => post_date(p) is Some && decimal_u64(p.id@) is Some,
    }
}

/// A day lies on the deleted side of the cutoff.
pub open spec fn date_in_scope(d: CalendarDate, cutoff: CalendarDate, direction: Direction) -> bool {
    match direction {
        Direction::Before => d.spec_before(cutoff),
        Direction::After => cutoff.spec_before(d),
    }
}

/// A record holds a well-formed post on the deleted side of the cutoff.
pub open spec fn in_scope<R>(r: ArchiveRecord<R>, cutoff: CalendarDate, direction: Direction) -> bool {
    &&& r.post is Some
    &&& well_formed(r)
    &&& date_in_scope(post_date(r.post->0)->0, cutoff, direction)
}

pub open spec fn scope_pred<R>(cutoff: CalendarDate, direction: Direction) -> spec_fn(
    ArchiveRecord<R>,
) -> bool {
    |r: ArchiveRecord<R>| in_scope(r, cutoff, direction)
}

/// The work item for an in-scope record.
pub open spec fn item_of<R>(r: ArchiveRecord<R>) -> WorkItem<R> {
    WorkItem { id: decimal_u64(r.post->0.id@)->0, raw: r.raw }
}

/// The in-scope records, in archive order.
pub open spec fn selected<R>(
    records: Seq<ArchiveRecord<R>>,
    cutoff: CalendarDate,
    direction: Direction,
) -> Seq<ArchiveRecord<R>> {
    records.filter(scope_pred(cutoff, direction))
}

/// The work queue for an archive, in archive order.
pub open spec fn work_items<R>(
    records: Seq<ArchiveRecord<R>>,
    cutoff: CalendarDate,
    direction: Direction,
) -> Seq<WorkItem<R>> {
    selected(records, cutoff, direction).map_values(|r: ArchiveRecord<R>| item_of(r))
}

/// Whether a post created on `date` is deleted.
pub fn date_is_in_scope(
    date: &CalendarDate,
    cutoff: &CalendarDate,
    direction: Direction,
) -> (r: bool)
    ensures
        r == date_in_scope(*date, *cutoff, direction),
{
    match direction {
        Direction::Before => date.before(cutoff),
        Direction::After => cutoff.before(date),
    }
}

proof fn lemma_selected_step<R>(
    records: Seq<ArchiveRecord<R>>,
    i: int,
    cutoff: CalendarDate,
    direction: Direction,
)
    requires
        0 <= i < records.len(),
    ensures
        selected(records.subrange(0, i + 1), cutoff, direction) == if in_scope(
            records[i],
            cutoff,
            direction,
        ) {
            selected(records.subrange(0, i), cutoff, direction).push(records[i])
        } else {
            selected(records.subrange(0, i), cutoff, direction)
        },
{
    let s = records.subrange(0, i + 1);
    assert(s.drop_last() =~= records.subrange(0, i));
    assert(s.last() == records[i]);
    reveal(Seq::filter);
}

/// Turns an archive into the ordered work queue: the records with a post on
/// the deleted side of `cutoff`, compared by day, in archive order.
/// Placeholders are skipped; a post whose timestamp or identifier does not
/// parse fails the whole archive, naming the first such record.
pub fn filter_records<R>(
    records: Vec<ArchiveRecord<R>>,
    cutoff: CalendarDate,
    direction: Direction,
) -> (r: Result<Vec<WorkItem<R>>, FilterError>)
    ensures
        r is Ok <==> forall|i: int|
            0 <= i < records@.len() ==> well_formed(#[trigger] records@[i]),
        r matches Ok(items) ==> items@ == work_items(records@, cutoff, direction),
        r matches Err(FilterError::MalformedRecord { index }) ==> {
            &&& index < records@.len()
            &&& !well_formed(records@[index as int])
            &&& forall|j: int| 0 <= j < index ==> well_formed(#[trigger] records@[j])
        },
{
    let ghost orig = records@;
    let mut rest = records;
    let mut out: Vec<WorkItem<R>> = Vec::new();
    let n: usize = rest.len();
    let mut i: usize = 0;
    while i < n
        invariant
            n == orig.len(),
            0 <= i <= n,
            orig == records@,
            rest@ == orig.subrange(i as int, n as int),
            out@ == work_items(orig.subrange(0, i as int), cutoff, direction),
            forall|j: int| 0 <= j < i ==> well_formed(#[trigger] orig[j]),
        decreases n - i,
    {
        proof {
            lemma_selected_step(orig, i as int, cutoff, direction);
        }
        let rec = rest.remove(0);
        assert(rec == orig[i as int]);
        match rec.post {
            None => {},
            Some(p) => {
                let date = parse_post_date(p.created_at.as_str());
                let id = parse_u64(p.id.as_str());
                match (date, id) {
                    (Some(d), Some(id)) => {
                        if date_is_in_scope(&d, &cutoff, direction) {
                            let ghost prev = selected(orig.subrange(0, i as int), cutoff, direction);
                            out.push(WorkItem { id, raw: rec.raw });
                            assert(prev.push(orig[i as int]).map_values(
                                |r: ArchiveRecord<R>| item_of(r),
                            ) =~= prev.map_values(|r: ArchiveRecord<R>| item_of(r)).push(
                                item_of(orig[i as int]),
                            ));
                        }
                    },
                    _ => {
                        assert(!well_formed(orig[i as int]));
                        return Err(FilterError::MalformedRecord { index: i });
                    },
                }
            },
        }
        assert(rest@ =~= orig.subrange(i + 1, n as int));
        i = i + 1;
    }
    assert(orig.subrange(0, n as int) =~= orig);
    Ok(out)
}

/// Deleting before and deleting after a cutoff split an archive cleanly: every
/// record chosen for `Before` has a post dated on an earlier day than the
/// cutoff, every record chosen for `After` one dated later, no record is chosen
/// by both, and, when no post falls on the cutoff day itself, every post of the
/// archive is chosen by one of the two.
pub proof fn lemma_filter_partitions<R>(records: Seq<ArchiveRecord<R>>, cutoff: CalendarDate)
    requires
        forall|i: int| 0 <= i < records.len() ==> well_formed(#[trigger] records[i]),
    ensures
        forall|k: int|
            0 <= k < selected(records, cutoff, Direction::Before).len() ==> {
                let r = #[trigger] selected(records, cutoff, Direction::Before)[k];
                &&& records.contains(r)
                &&& r.post is Some
                &&& post_date(r.post->0) matches Some(d) && d.spec_before(cutoff)
            },
        forall|k: int|
            0 <= k < selected(records, cutoff, Direction::After).len() ==> {
                let r = #[trigger] selected(records, cutoff, Direction::After)[k];
                &&& records.contains(r)
                &&& r.post is Some
                &&& post_date(r.post->0) matches Some(d) && cutoff.spec_before(d)
            },
        forall|r: ArchiveRecord<R>|
            !(selected(records, cutoff, Direction::Before).contains(r) && #[trigger] selected(
                records,
                cutoff,
                Direction::After,
            ).contains(r)),
        (forall|i: int|
            0 <= i < records.len() && (#[trigger] records[i]).post is Some ==> post_date(
                records[i].post->0,
            ) != Some(cutoff)) ==> forall|i: int|
            0 <= i < records.len() && (#[trigger] records[i]).post is Some ==> selected(
                records,
                cutoff,
                Direction::Before,
            ).contains(records[i]) || selected(records, cutoff, Direction::After).contains(
                records[i],
            ),
{
    let pb = scope_pred::<R>(cutoff, Direction::Before);
    let pa = scope_pred::<R>(cutoff, Direction::After);
    broadcast use Seq::lemma_filter_pred, Seq::lemma_filter_contains, Seq::lemma_filter_contains_rev;

    assert forall|k: int|
        0 <= k < selected(records, cutoff, Direction::Before).len() implies {
        let r = #[trigger] selected(records, cutoff, Direction::Before)[k];
        &&& records.contains(r)
        &&& r.post is Some
        &&& post_date(r.post->0) matches Some(d) && d.spec_before(cutoff)
    } by {
        let f = records.filter(pb);
        assert(f.contains(f[k]));
        assert(pb(f[k]));
    }
    assert forall|k: int|
        0 <= k < selected(records, cutoff, Direction::After).len() implies {
        let r = #[trigger] selected(records, cutoff, Direction::After)[k];
        &&& records.contains(r)
        &&& r.post is Some
        &&& post_date(r.post->0) matches Some(d) && cutoff.spec_before(d)
    } by {
        let f = records.filter(pa);
        assert(f.contains(f[k]));
        assert(pa(f[k]));
    }
    assert forall|r: ArchiveRecord<R>|
        !(selected(records, cutoff, Direction::Before).contains(r) && #[trigger] selected(
            records,
            cutoff,
            Direction::After,
        ).contains(r)) by {
        if selected(records, cutoff, Direction::Before).contains(r) && selected(
            records,
            cutoff,
            Direction::After,
        ).contains(r) {
            let fb = records.filter(pb);
            let fa = records.filter(pa);
            let kb = choose|kb: int| 0 <= kb < fb.len() && fb[kb] == r;
            let ka = choose|ka: int| 0 <= ka < fa.len() && fa[ka] == r;
            assert(pb(fb[kb]));
            assert(pa(fa[ka]));
        }
    }
    if forall|i: int|
        0 <= i < records.len() && (#[trigger] records[i]).post is Some ==> post_date(
            records[i].post->0,
        ) != Some(cutoff) {
        assert forall|i: int|
            0 <= i < records.len() && (#[trigger] records[i]).post is Some implies selected(
            records,
            cutoff,
            Direction::Before,
        ).contains(records[i]) || selected(records, cutoff, Direction::After).contains(
            records[i],
        ) by {
            assert(well_formed(records[i]));
            if pb(records[i]) {
                assert(records.filter(pb).contains(records[i]));
            } else {
                assert(pa(records[i]));
                assert(records.filter(pa).contains(records[i]));
            }
        }
    }
}

} // verus!
