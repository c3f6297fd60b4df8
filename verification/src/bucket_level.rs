//! A minimal level for exercising the host: forty-five-degree buckets.
//!
//! The level divides the non-negative angles into bands of forty-five
//! degrees each.  Its angle update reports true exactly when the angle
//! crossed into another band, and its snapshot is a single face tagged
//! with the current band.

use vstd::prelude::*;

use crate::handle::Pointerable;
use crate::items::Face;
use crate::plugin::{CallOutcome, LevelBehavior};

verus! {

/// The band an angle falls in: its number of whole forty-five-degree
/// steps, with everything below zero counted as band zero.
pub open spec fn spec_bucket_of(angle_mdeg: i64) -> i64 {
    if angle_mdeg >= 0 {
        (angle_mdeg / 45_000) as i64
    } else {
        0
    }
}

/// The band an angle falls in.
pub fn bucket_of(angle_mdeg: i64) -> (b: i64)
    ensures
        b == spec_bucket_of(angle_mdeg),
{
    if angle_mdeg >= 0 {
        angle_mdeg / 45_000
    } else {
        0
    }
}

/// A level showing one face per forty-five-degree band.
pub struct BucketLevel {
    pub bucket: i64,
}

impl Pointerable for BucketLevel {

}

impl BucketLevel {
    /// The band on show.
    pub closed spec fn spec_bucket(self) -> i64 {
        self.bucket
    }

    /// A fresh level, showing band zero.
    pub fn new() -> (s: Self)
        ensures
            s.spec_bucket() == 0,
    {
        BucketLevel { bucket: 0 }
    }
}

impl LevelBehavior for BucketLevel {
    /// Construction always completes, at band zero.
    open spec fn spec_construct() -> CallOutcome<BucketLevel> {
        CallOutcome::Completed(BucketLevel { bucket: 0 })
    }

    /// Teardown keeps nothing, so it always completes.
    open spec fn spec_destory(pre: BucketLevel) -> CallOutcome<()> {
        CallOutcome::Completed(())
    }

    /// The update reports true exactly when the angle's band differs from
    /// the one on show, and then moves there.
    open spec fn spec_when_angled(pre: BucketLevel, angle_mdeg: i64) -> (
        CallOutcome<bool>,
        BucketLevel,
    ) {
        let b = spec_bucket_of(angle_mdeg);
        if b == pre.bucket {
            (CallOutcome::Completed(false), pre)
        } else {
            (CallOutcome::Completed(true), BucketLevel { bucket: b })
        }
    }

    /// The snapshot always completes: one face, tagged with the band.
    open spec fn spec_faces(pre: BucketLevel) -> CallOutcome<Seq<Face>> {
        CallOutcome::Completed(seq![Face { tag: pre.bucket }])
    }

    fn construct() -> (r: CallOutcome<BucketLevel>) {
        CallOutcome::Completed(BucketLevel::new())
    }

    fn destory(&mut self) -> (r: CallOutcome<()>) {
        CallOutcome::Completed(())
    }

    fn when_angled(&mut self, angle_mdeg: i64) -> (r: CallOutcome<bool>) {
        let b = bucket_of(angle_mdeg);
        if b == self.bucket {
            CallOutcome::Completed(false)
        } else {
            self.bucket = b;
            CallOutcome::Completed(true)
        }
    }

    fn get_faces(&self) -> (r: CallOutcome<Vec<Face>>) {
        let mut v: Vec<Face> = Vec::new();
        v.push(Face::with_tag(self.bucket));
        proof {
            assert(v@ =~= seq![Face { tag: self.bucket }]);
        }
        CallOutcome::Completed(v)
    }
}

} // verus!
