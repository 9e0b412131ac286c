//! The nearest hit among many surfaces.

use vstd::prelude::*;
use crate::hittables::bounding::aabb::Aabb;
use crate::hittables::hittable::Hittable;
use crate::misc::hit_record::HitRecord;
use crate::misc::ray::Ray;
use crate::misc::scalar::Scalar;

verus! {

/// Surfaces in the order in which they are asked.
pub struct HittableList<H: Hittable> {
    pub hittables: Vec<H>,
}

/// What one surface answered: whether it was hit, and the record as it left
/// it.
pub struct Report {
    pub hit: bool,
    pub record: HitRecord,
}

/// Where a scan over the surfaces stands.
pub struct Scan {
    /// The record that the surfaces write into.
    pub scratch: HitRecord,
    /// The distance beyond which a hit no longer counts.
    pub closest_so_far: Scalar,
    /// The record of the nearest hit, or the caller's record while there is
    /// none.
    pub record: HitRecord,
    /// Whether any surface has reported a hit.
    pub hit_anything: bool,
}

/// The scan before the first surface.
pub open spec fn start(t_max: Scalar, record: HitRecord) -> Scan {
    Scan { scratch: HitRecord::blank(), closest_so_far: t_max, record, hit_anything: false }
}

/// The scan after one more report.  A hit is kept when it is strictly nearer
/// than the limit, which then becomes its distance.
pub open spec fn step(before: Scan, report: Report) -> Scan {
    if !report.hit {
        Scan { scratch: report.record, ..before }
    } else if before.closest_so_far.greater(report.record.distance) {
        Scan {
            scratch: report.record,
            closest_so_far: report.record.distance,
            record: report.record,
            hit_anything: true,
        }
    } else {
        Scan { scratch: report.record, hit_anything: true, ..before }
    }
}

/// The scan after the first `n` reports.
pub open spec fn scan(reports: Seq<Report>, t_max: Scalar, record: HitRecord, n: nat) -> Scan
    decreases n,
{
    if n == 0 {
        start(t_max, record)
    } else {
        step(scan(reports, t_max, record, (n - 1) as nat), reports[n - 1])
    }
}

/// The number of the report that the scan holds after the first `n` reports,
/// if it holds any.
pub open spec fn kept(reports: Seq<Report>, t_max: Scalar, record: HitRecord, n: nat) -> Option<
    nat,
>
    decreases n,
{
    if n == 0 {
        None
    } else {
        let before = scan(reports, t_max, record, (n - 1) as nat);
        let last = reports[n - 1];
        if last.hit && before.closest_so_far.greater(last.record.distance) {
            Some((n - 1) as nat)
        } else {
            kept(reports, t_max, record, (n - 1) as nat)
        }
    }
}

impl<H: Hittable> HittableList<H> {
    /// Whether the reports are what the surfaces can answer when they are
    /// asked in turn, each with the limit and the scratch record that the scan
    /// has reached.
    pub open spec fn reported(
        &self,
        ray: Ray,
        t_min: Scalar,
        t_max: Scalar,
        record: HitRecord,
        reports: Seq<Report>,
    ) -> bool {
        &&& reports.len() == self.hittables@.len()
        &&& forall|i: int|
            0 <= i < reports.len() ==> {
                let before = scan(reports, t_max, record, i as nat);
                (#[trigger] self.hittables@[i]).answers(
                    ray,
                    t_min,
                    before.closest_so_far,
                    before.scratch,
                    reports[i].hit,
                    reports[i].record,
                )
            }
    }

    pub fn new(hittables: Vec<H>) -> (list: Self)
        ensures
            list.hittables == hittables,
    {
        HittableList { hittables }
    }
}

impl<H: Hittable> Hittable for HittableList<H> {
    /// A list answers with the end of a scan over its surfaces' reports: it
    /// is hit if any surface is, and then the record is the one that the scan
    /// kept; without a hit the record is left as it was.
    open spec fn answers(
        &self,
        ray: Ray,
        t_min: Scalar,
        t_max: Scalar,
        before: HitRecord,
        hit: bool,
        after: HitRecord,
    ) -> bool {
        exists|reports: Seq<Report>|
            {
                &&& #[trigger] self.reported(ray, t_min, t_max, before, reports)
                &&& hit == scan(reports, t_max, before, reports.len()).hit_anything
                &&& after == scan(reports, t_max, before, reports.len()).record
                &&& !hit ==> after == before
            }
    }

    /// Asks every surface in turn, each with the distance of the nearest hit
    /// so far as its limit.
    fn hit(&self, ray: &Ray, t_min: Scalar, t_max: Scalar, record: &mut HitRecord) -> (hit: bool) {
        let mut temp_rec = HitRecord::default();
        let mut hit_anything = false;
        let mut closest_so_far = t_max;
        let mut i: usize = 0;
        let ghost mut reports: Seq<Report> = Seq::empty();
        while i < self.hittables.len()
            invariant
                0 <= i <= self.hittables@.len(),
                reports.len() == i,
                scan(reports, t_max, *old(record), i as nat) == (Scan {
                    scratch: temp_rec,
                    closest_so_far,
                    record: *record,
                    hit_anything,
                }),
                forall|k: int|
                    0 <= k < i ==> {
                        let before = scan(reports, t_max, *old(record), k as nat);
                        (#[trigger] self.hittables@[k]).answers(
                            *ray,
                            t_min,
                            before.closest_so_far,
                            before.scratch,
                            reports[k].hit,
                            reports[k].record,
                        )
                    },
                !hit_anything ==> *record == *old(record),
            decreases self.hittables@.len() - i,
        {
            let ghost earlier = reports;
            let hit = self.hittables[i].hit(ray, t_min, closest_so_far, &mut temp_rec);
            proof {
                reports = earlier.push(Report { hit, record: temp_rec });
                lemma_scan_ignores_later_reports(earlier, reports, t_max, *old(record), i as nat);
                assert forall|k: int| 0 <= k < i + 1 implies {
                    let before = scan(reports, t_max, *old(record), k as nat);
                    (#[trigger] self.hittables@[k]).answers(
                        *ray,
                        t_min,
                        before.closest_so_far,
                        before.scratch,
                        reports[k].hit,
                        reports[k].record,
                    )
                } by {
                    lemma_scan_ignores_later_reports(earlier, reports, t_max, *old(record), k as nat);
                }
            }
            if hit {
                hit_anything = true;
                if closest_so_far.gt(temp_rec.get_distance()) {
                    closest_so_far = temp_rec.get_distance();
                    *record = temp_rec;
                }
            }
            i = i + 1;
        }
        assert(self.reported(*ray, t_min, t_max, *old(record), reports));
        hit_anything
    }

    /// A list offers no box of its own.
    fn bounding_box(&self) -> (aabb: Option<Aabb>)
        ensures
            aabb is None,
    {
        None
    }
}

/// The scan over the first `n` reports does not look at the reports after
/// them.
pub proof fn lemma_scan_ignores_later_reports(
    shorter: Seq<Report>,
    longer: Seq<Report>,
    t_max: Scalar,
    record: HitRecord,
    n: nat,
)
    requires
        n <= shorter.len() <= longer.len(),
        forall|i: int| 0 <= i < shorter.len() ==> shorter[i] == longer[i],
    ensures
        scan(shorter, t_max, record, n) == scan(longer, t_max, record, n),
    decreases n,
{
    if n > 0 {
        lemma_scan_ignores_later_reports(shorter, longer, t_max, record, (n - 1) as nat);
    }
}

/// The scan keeps the nearest hit, and of equally near hits the first.
///
/// While it holds no hit, the record is the caller's and the limit is `t_max`.
/// Once it holds the hit of report `k`, the record is the one of that report
/// and the limit is its distance, which is a number below `t_max`; every hit
/// reported before `k` is strictly farther away (or has no distance), and no
/// hit reported after `k` is nearer.
pub proof fn lemma_scan_keeps_first_nearest(
    reports: Seq<Report>,
    t_max: Scalar,
    record: HitRecord,
    n: nat,
)
    requires
        n <= reports.len(),
    ensures
        ({
            let end = scan(reports, t_max, record, n);
            match kept(reports, t_max, record, n) {
                None => end.record == record && end.closest_so_far == t_max,
                Some(k) => {
                    &&& k < n
                    &&& end.hit_anything
                    &&& reports[k as int].hit
                    &&& reports[k as int].record == end.record
                    &&& end.closest_so_far == end.record.distance
                    &&& !end.record.distance.nan()
                    &&& end.record.distance.less(t_max)
                    &&& forall|i: int|
                        0 <= i < k && (#[trigger] reports[i]).hit ==> !reports[i].record.distance.at_most(
                            end.record.distance,
                        )
                    &&& forall|i: int|
                        k < i < n && (#[trigger] reports[i]).hit ==> !reports[i].record.distance.less(
                            end.record.distance,
                        )
                },
            }
        }),
        forall|i: int|
            0 <= i < n && (#[trigger] reports[i]).hit ==> !reports[i].record.distance.less(
                scan(reports, t_max, record, n).closest_so_far,
            ),
        scan(reports, t_max, record, n).hit_anything == exists|i: int|
            0 <= i < n && (#[trigger] reports[i]).hit,
    decreases n,
{
    if n > 0 {
        let m = (n - 1) as nat;
        lemma_scan_keeps_first_nearest(reports, t_max, record, m);
        let before = scan(reports, t_max, record, m);
        let end = scan(reports, t_max, record, n);
        let last = reports[m as int];
        if last.hit {
            assert(exists|i: int| 0 <= i < n && (#[trigger] reports[i]).hit);
        }
        if before.hit_anything {
            let i = choose|i: int| 0 <= i < m && (#[trigger] reports[i]).hit;
            assert(0 <= i < n && reports[i].hit);
        }
        if end.hit_anything && !last.hit {
            assert(before.hit_anything);
        }
        if exists|i: int| 0 <= i < n && (#[trigger] reports[i]).hit {
            let i = choose|i: int| 0 <= i < n && (#[trigger] reports[i]).hit;
            if i < m {
                assert(before.hit_anything);
            }
        }
    }
}

} // verus!
