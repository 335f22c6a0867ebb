//! The conformance report: findings bucketed by requirements class.
//! Conformance is decided by violations alone; warnings and the
//! content flag never affect it.

use vstd::prelude::*;
use crate::conformance::class::{class_at, class_index, is_mandatory, RequirementsClass};
use crate::conformance::finding::{
    class_of, violation_class, warning_class, warning_class_of, CdbViolation, CdbViolationModel,
    CdbWarning, CdbWarningModel,
};
use crate::metadata::{MetadataViolation, MetadataViolationModel};
use crate::text::owned;

verus! {

/// The violations and warnings recorded against one class, and whether the
/// datastore held content that class governs. A class with no content
/// still passes; the flag separates checked-and-clean from
/// checked-with-no-content.
#[derive(Debug, Clone)]
pub struct ClassFindings {
    pub violations: Vec<CdbViolation>,
    pub warnings: Vec<CdbWarning>,
    pub has_content: bool,
}

impl Default for ClassFindings {
    fn default() -> (r: ClassFindings)
        ensures
            r.violations@ == Seq::<CdbViolation>::empty(),
            r.warnings@ == Seq::<CdbWarning>::empty(),
            !r.has_content,
    {
        ClassFindings { violations: Vec::new(), warnings: Vec::new(), has_content: false }
    }
}

/// The findings of one class, as values.
pub struct FindingsModel {
    pub violations: Seq<CdbViolationModel>,
    pub warnings: Seq<CdbWarningModel>,
    pub has_content: bool,
}

/// The findings of an unlisted class: none, and no content.
pub open spec fn no_findings() -> FindingsModel {
    FindingsModel { violations: Seq::empty(), warnings: Seq::empty(), has_content: false }
}

/// The value of a class's findings.
pub open spec fn findings_model(f: ClassFindings) -> FindingsModel {
    FindingsModel {
        violations: f.violations@.map_values(|v: CdbViolation| v@),
        warnings: f.warnings@.map_values(|w: CdbWarning| w@),
        has_content: f.has_content,
    }
}

/// A violation as it is stored: a link violation nested in a metadata
/// violation is stored as the link violation itself.
pub open spec fn normalized(v: CdbViolationModel) -> CdbViolationModel {
    match v {
        CdbViolationModel::Metadata(m) => match m {
            MetadataViolationModel::Link(l) => CdbViolationModel::Link(l),
            _ => v,
        },
        _ => v,
    }
}

/// The content of a report: its profile and root, and per class (by
/// listing position) its findings if the class is listed.
pub struct ReportModel {
    pub profile: Seq<char>,
    pub root: Seq<char>,
    pub slots: Seq<Option<FindingsModel>>,
}

/// The findings of class `c` in a report's content; none if unlisted.
pub open spec fn model_entry(m: ReportModel, c: RequirementsClass) -> FindingsModel {
    match m.slots[class_index(c)] {
        Some(f) => f,
        None => no_findings(),
    }
}

/// `m` with class `c` listed with findings `f`.
pub open spec fn with_entry(m: ReportModel, c: RequirementsClass, f: FindingsModel) -> ReportModel {
    ReportModel { slots: m.slots.update(class_index(c), Some(f)), ..m }
}

/// `m` after marking that the datastore holds content of class `c`.
pub open spec fn marked(m: ReportModel, c: RequirementsClass) -> ReportModel {
    with_entry(m, c, FindingsModel { has_content: true, ..model_entry(m, c) })
}

/// `m` after recording violation `v` under its class.
pub open spec fn recorded(m: ReportModel, v: CdbViolationModel) -> ReportModel {
    let n = normalized(v);
    let c = class_of(n);
    with_entry(
        m,
        c,
        FindingsModel { violations: model_entry(m, c).violations.push(n), ..model_entry(m, c) },
    )
}

/// `m` after recording warning `w` under its class.
pub open spec fn warned(m: ReportModel, w: CdbWarningModel) -> ReportModel {
    let c = warning_class_of(w);
    with_entry(
        m,
        c,
        FindingsModel { warnings: model_entry(m, c).warnings.push(w), ..model_entry(m, c) },
    )
}

/// The content of a fresh report: the five mandatory classes listed, with
/// no findings and marked content-bearing.
pub open spec fn fresh_report(profile: Seq<char>, root: Seq<char>) -> ReportModel {
    ReportModel {
        profile,
        root,
        slots: Seq::new(
            11,
            |i: int|
                if i < 5 {
                    Some(
                        FindingsModel {
                            violations: Seq::empty(),
                            warnings: Seq::empty(),
                            has_content: true,
                        },
                    )
                } else {
                    None
                },
        ),
    }
}

/// The outcome of validating a datastore against a profile: findings
/// bucketed by class. The five mandatory classes are always listed.
#[derive(Debug, Clone)]
pub struct ConformanceReport {
    profile: String,
    root: String,
    slots: Vec<Option<ClassFindings>>,
}

impl View for ConformanceReport {
    type V = ReportModel;

    closed spec fn view(&self) -> ReportModel {
        ReportModel {
            profile: self.profile@,
            root: self.root@,
            slots: Seq::new(
                self.slots@.len(),
                |i: int|
                    match self.slots@[i] {
                        Some(f) => Some(findings_model(f)),
                        None => None,
                    },
            ),
        }
    }
}

impl ConformanceReport {
    /// One slot per class, indexed by listing position.
    pub closed spec fn wf(self) -> bool {
        self.slots@.len() == 11
    }

    /// The report's content agrees with its per-class reading.
    pub proof fn view_entries(self)
        requires
            self.wf(),
        ensures
            self@.profile == self.profile_text(),
            self@.root == self.root_text(),
            self@.slots.len() == 11,
            forall|c: RequirementsClass| #[trigger] model_entry(self@, c) == self.entry(c),
            forall|c: RequirementsClass| #[trigger] (self@.slots[class_index(c)] is Some) == self.listed(c),
    {
    }

    /// The profile name.
    pub closed spec fn profile_text(self) -> Seq<char> {
        self.profile@
    }

    /// The datastore root.
    pub closed spec fn root_text(self) -> Seq<char> {
        self.root@
    }

    /// Whether a class is listed.
    pub closed spec fn listed(self, c: RequirementsClass) -> bool {
        self.slots@[class_index(c)] is Some
    }

    /// The findings recorded for a class; none for an unlisted class.
    pub closed spec fn entry(self, c: RequirementsClass) -> FindingsModel {
        match self.slots@[class_index(c)] {
            Some(f) => findings_model(f),
            None => no_findings(),
        }
    }

    /// Whether a class has no violations.
    pub open spec fn passed(self, c: RequirementsClass) -> bool {
        self.entry(c).violations.len() == 0
    }

    /// Whether no class has a violation.
    pub open spec fn conformant(self) -> bool {
        forall|c: RequirementsClass| #[trigger] self.passed(c)
    }

    /// Whether `other` holds the same profile and root, and the same
    /// listing and findings for every class but `c`.
    pub open spec fn same_except(self, other: Self, c: RequirementsClass) -> bool {
        &&& other.wf()
        &&& other.profile_text() == self.profile_text()
        &&& other.root_text() == self.root_text()
        &&& forall|d: RequirementsClass|
            #![trigger other.listed(d)]
            #![trigger other.entry(d)]
            d != c ==> other.listed(d) == self.listed(d) && other.entry(d) == self.entry(d)
    }

    /// Two updates of the same class compose.
    pub proof fn same_except_trans(self, mid: Self, last: Self, c: RequirementsClass)
        requires
            self.same_except(mid, c),
            mid.same_except(last, c),
        ensures
            self.same_except(last, c),
    {
        assert forall|d: RequirementsClass| d != c implies #[trigger] last.listed(d) == self.listed(
            d,
        ) && last.entry(d) == self.entry(d) by {
            assert(mid.listed(d) == self.listed(d) && mid.entry(d) == self.entry(d));
            assert(last.listed(d) == mid.listed(d) && last.entry(d) == mid.entry(d));
        }
    }

    /// A fresh report for `profile` at datastore `root`, listing the five
    /// mandatory classes with empty findings; they are content-bearing by
    /// construction.
    pub fn new(profile: &str, root: &str) -> (r: ConformanceReport)
        ensures
            r.wf(),
            r.profile_text() == profile@,
            r.root_text() == root@,
            forall|c: RequirementsClass| #[trigger] r.listed(c) == is_mandatory(c),
            forall|c: RequirementsClass|
                #[trigger] r.entry(c) == (FindingsModel {
                    violations: Seq::empty(),
                    warnings: Seq::empty(),
                    has_content: is_mandatory(c),
                }),
            r@ == fresh_report(profile@, root@),
    {
        let mut slots: Vec<Option<ClassFindings>> = Vec::new();
        let mut i: usize = 0;
        while i < 11
            invariant
                0 <= i <= 11,
                slots@.len() == i,
                forall|j: int|
                    0 <= j < i ==> match #[trigger] slots@[j] {
                        Some(f) => j < 5 && f.violations@.len() == 0 && f.warnings@.len() == 0
                            && f.has_content,
                        None => j >= 5,
                    },
            decreases 11 - i,
        {
            if i < 5 {
                let mut f = ClassFindings::default();
                f.has_content = true;
                slots.push(Some(f));
            } else {
                slots.push(None);
            }
            i += 1;
        }
        let r = ConformanceReport { profile: owned(profile), root: owned(root), slots };
        proof {
            assert forall|c: RequirementsClass| #[trigger] r.entry(c) == (FindingsModel {
                violations: Seq::empty(),
                warnings: Seq::empty(),
                has_content: is_mandatory(c),
            }) by {
                let j = class_index(c);
                match r.slots@[j] {
                    Some(f) => {
                        assert(f.violations@.map_values(|v: CdbViolation| v@)
                            =~= Seq::<CdbViolationModel>::empty());
                        assert(f.warnings@.map_values(|w: CdbWarning| w@)
                            =~= Seq::<CdbWarningModel>::empty());
                    },
                    None => {},
                }
            }
            assert forall|j: int| 0 <= j < 11 implies #[trigger] r@.slots[j] == fresh_report(
                profile@,
                root@,
            ).slots[j] by {
                match r.slots@[j] {
                    Some(f) => {
                        assert(f.violations@.map_values(|v: CdbViolation| v@)
                            =~= Seq::<CdbViolationModel>::empty());
                        assert(f.warnings@.map_values(|w: CdbWarning| w@)
                            =~= Seq::<CdbWarningModel>::empty());
                    },
                    None => {},
                }
            }
            assert(r@.slots =~= fresh_report(profile@, root@).slots);
        }
        r
    }

    /// Takes the findings of class `c` out of the report (an unlisted class
    /// yields empty findings), leaving its slot unlisted.
    fn take_slot(&mut self, c: RequirementsClass) -> (f: ClassFindings)
        requires
            old(self).wf(),
        ensures
            findings_model(f) == old(self).entry(c),
            old(self).same_except(*final(self), c),
            final(self)@ == (ReportModel {
                slots: old(self)@.slots.update(class_index(c), None),
                ..old(self)@
            }),
    {
        let i = c.index();
        let slot = self.slots.remove(i);
        self.slots.insert(i, None);
        proof {
            assert(self@.slots =~= old(self)@.slots.update(class_index(c), None));
            assert forall|d: RequirementsClass| d != c implies #[trigger] self.listed(d) == old(
                self,
            ).listed(d) && self.entry(d) == old(self).entry(d) by {
                assert(class_index(d) != class_index(c));
                assert(self.slots@[class_index(d)] == old(self).slots@[class_index(d)]);
            }
        }
        match slot {
            Some(f) => f,
            None => {
                let f = ClassFindings::default();
                proof {
                    assert(findings_model(f).violations =~= Seq::<CdbViolationModel>::empty());
                    assert(findings_model(f).warnings =~= Seq::<CdbWarningModel>::empty());
                }
                f
            },
        }
    }

    /// Puts findings back as the listed findings of class `c`.
    fn put_slot(&mut self, c: RequirementsClass, f: ClassFindings)
        requires
            old(self).wf(),
        ensures
            final(self).listed(c),
            final(self).entry(c) == findings_model(f),
            old(self).same_except(*final(self), c),
            final(self)@ == (ReportModel {
                slots: old(self)@.slots.update(class_index(c), Some(findings_model(f))),
                ..old(self)@
            }),
    {
        let i = c.index();
        let _ = self.slots.remove(i);
        self.slots.insert(i, Some(f));
        proof {
            assert(self@.slots =~= old(self)@.slots.update(class_index(c), Some(findings_model(f))));
            assert forall|d: RequirementsClass| d != c implies #[trigger] self.listed(d) == old(
                self,
            ).listed(d) && self.entry(d) == old(self).entry(d) by {
                assert(class_index(d) != class_index(c));
                assert(self.slots@[class_index(d)] == old(self).slots@[class_index(d)]);
            }
        }
    }

    /// Lists `class` with its findings so far (none, and no content, if it
    /// was not listed). Idempotent; never clears what was recorded.
    pub fn declare_class(&mut self, class: RequirementsClass)
        requires
            old(self).wf(),
        ensures
            final(self).listed(class),
            final(self).entry(class) == old(self).entry(class),
            old(self).same_except(*final(self), class),
            final(self)@ == with_entry(old(self)@, class, model_entry(old(self)@, class)),
    {
        let ghost start = *self;
        let f = self.take_slot(class);
        let ghost mid = *self;
        self.put_slot(class, f);
        proof {
            start.same_except_trans(mid, *self, class);
            start.view_entries();
            assert(self@.slots =~= start@.slots.update(class_index(class), self@.slots[class_index(class)]));
        }
    }

    /// Records that the datastore holds content `class` governs, listing the
    /// class. Pass/fail is untouched.
    pub fn mark_content(&mut self, class: RequirementsClass)
        requires
            old(self).wf(),
        ensures
            final(self).listed(class),
            final(self).entry(class) == (FindingsModel {
                has_content: true,
                ..old(self).entry(class)
            }),
            old(self).same_except(*final(self), class),
            final(self)@ == marked(old(self)@, class),
    {
        let ghost start = *self;
        let mut f = self.take_slot(class);
        let ghost mid = *self;
        f.has_content = true;
        self.put_slot(class, f);
        proof {
            start.same_except_trans(mid, *self, class);
            start.view_entries();
            assert(self@.slots =~= start@.slots.update(class_index(class), self@.slots[class_index(class)]));
        }
    }

    /// Records a violation under its class. A link violation nested in a
    /// metadata violation is stored as the link violation, under Links.
    pub fn record_violation(&mut self, violation: CdbViolation)
        requires
            old(self).wf(),
        ensures
            ({
                let n = normalized(violation@);
                let c = class_of(n);
                &&& final(self).listed(c)
                &&& final(self).entry(c) == (FindingsModel {
                    violations: old(self).entry(c).violations.push(n),
                    ..old(self).entry(c)
                })
                &&& old(self).same_except(*final(self), c)
            }),
            final(self)@ == recorded(old(self)@, violation@),
    {
        let violation = match violation {
            CdbViolation::Metadata(MetadataViolation::Link(link)) => CdbViolation::Link(link),
            other => other,
        };
        let class = violation.class();
        let ghost start = *self;
        let mut f = self.take_slot(class);
        let ghost mid = *self;
        let ghost before = f.violations@;
        f.violations.push(violation);
        proof {
            assert(f.violations@.map_values(|v: CdbViolation| v@) =~= before.map_values(
                |v: CdbViolation| v@,
            ).push(violation@));
        }
        self.put_slot(class, f);
        proof {
            start.same_except_trans(mid, *self, class);
            start.view_entries();
            assert(self@.slots =~= start@.slots.update(class_index(class), self@.slots[class_index(class)]));
        }
    }

    /// Records a warning under its class.
    pub fn record_warning(&mut self, warning: CdbWarning)
        requires
            old(self).wf(),
        ensures
            ({
                let c = warning_class(warning);
                &&& final(self).listed(c)
                &&& final(self).entry(c) == (FindingsModel {
                    warnings: old(self).entry(c).warnings.push(warning@),
                    ..old(self).entry(c)
                })
                &&& old(self).same_except(*final(self), c)
            }),
            final(self)@ == warned(old(self)@, warning@),
    {
        let class = warning.class();
        let ghost start = *self;
        let mut f = self.take_slot(class);
        let ghost mid = *self;
        let ghost before = f.warnings@;
        f.warnings.push(warning);
        proof {
            assert(f.warnings@.map_values(|w: CdbWarning| w@) =~= before.map_values(
                |w: CdbWarning| w@,
            ).push(warning@));
        }
        self.put_slot(class, f);
        proof {
            start.same_except_trans(mid, *self, class);
            start.view_entries();
            assert(self@.slots =~= start@.slots.update(class_index(class), self@.slots[class_index(class)]));
        }
    }

    /// The name of the profile the datastore was validated against.
    pub fn profile(&self) -> (r: &str)
        ensures
            r@ == self.profile_text(),
    {
        self.profile.as_str()
    }

    /// The datastore root that was validated.
    pub fn root(&self) -> (r: &str)
        ensures
            r@ == self.root_text(),
    {
        self.root.as_str()
    }

    /// Whether the datastore conforms: no violation in any class.
    pub fn is_conformant(&self) -> (r: bool)
        requires
            self.wf(),
        ensures
            r == self.conformant(),
    {
        let mut i: usize = 0;
        while i < 11
            invariant
                0 <= i <= 11,
                self.wf(),
                forall|j: int| 0 <= j < i ==> #[trigger] self.passed(class_at(j)),
            decreases 11 - i,
        {
            let c = RequirementsClass::at(i);
            if !self.class_passed(c) {
                return false;
            }
            i += 1;
        }
        proof {
            assert forall|c: RequirementsClass| #[trigger] self.passed(c) by {
                assert(class_at(class_index(c)) == c);
            }
        }
        true
    }

    /// Whether `class` has no violations; an unlisted class passes.
    pub fn class_passed(&self, class: RequirementsClass) -> (r: bool)
        requires
            self.wf(),
        ensures
            r == self.passed(class),
    {
        match &self.slots[class.index()] {
            Some(f) => f.violations.len() == 0,
            None => true,
        }
    }

    /// The violations recorded for `class`; none for an unlisted class.
    pub fn violations(&self, class: RequirementsClass) -> (r: &[CdbViolation])
        requires
            self.wf(),
        ensures
            r@.map_values(|v: CdbViolation| v@) == self.entry(class).violations,
    {
        match &self.slots[class.index()] {
            Some(f) => f.violations.as_slice(),
            None => &[],
        }
    }

    /// Whether the datastore held content `class` governs; `false` for an
    /// unlisted class.
    pub fn class_has_content(&self, class: RequirementsClass) -> (r: bool)
        requires
            self.wf(),
        ensures
            r == self.entry(class).has_content,
    {
        match &self.slots[class.index()] {
            Some(f) => f.has_content,
            None => false,
        }
    }

    /// The warnings recorded for `class`; none for an unlisted class.
    pub fn warnings(&self, class: RequirementsClass) -> (r: &[CdbWarning])
        requires
            self.wf(),
        ensures
            r@.map_values(|w: CdbWarning| w@) == self.entry(class).warnings,
    {
        match &self.slots[class.index()] {
            Some(f) => f.warnings.as_slice(),
            None => &[],
        }
    }

    /// The findings of each class by listing position, `None` where the
    /// class is not listed.
    pub fn classes_by_slot(&self) -> (r: Vec<Option<&ClassFindings>>)
        requires
            self.wf(),
        ensures
            r@.len() == 11,
            self@.slots.len() == 11,
            forall|k: int|
                0 <= k < 11 ==> match (#[trigger] r@[k], self@.slots[k]) {
                    (Some(f), Some(g)) => findings_model(*f) == g,
                    (None, None) => true,
                    _ => false,
                },
    {
        let mut out: Vec<Option<&ClassFindings>> = Vec::new();
        let mut i: usize = 0;
        while i < 11
            invariant
                0 <= i <= 11,
                self.wf(),
                out@.len() == i,
                forall|k: int|
                    0 <= k < i ==> match (#[trigger] out@[k], self@.slots[k]) {
                        (Some(f), Some(g)) => findings_model(*f) == g,
                        (None, None) => true,
                        _ => false,
                    },
            decreases 11 - i,
        {
            let slot = match &self.slots[i] {
                Some(f) => Some(f),
                None => None,
            };
            out.push(slot);
            i += 1;
        }
        out
    }

    /// Whether `e` is the listed class `e.0` with its findings.
    pub open spec fn holds_entry(self, e: (RequirementsClass, &ClassFindings)) -> bool {
        self.listed(e.0) && findings_model(*e.1) == self.entry(e.0)
    }

    /// Every listed class and its findings, in listing order.
    pub fn classes(&self) -> (r: Vec<(RequirementsClass, &ClassFindings)>)
        requires
            self.wf(),
        ensures
            forall|k: int| 0 <= k < r@.len() ==> self.holds_entry(#[trigger] r@[k]),
            forall|k: int, l: int|
                0 <= k < l < r@.len() ==> class_index(#[trigger] r@[k].0) < class_index(
                    #[trigger] r@[l].0,
                ),
            forall|c: RequirementsClass|
                #[trigger] self.listed(c) ==> exists|k: int| 0 <= k < r@.len() && r@[k].0 == c,
    {
        let mut out: Vec<(RequirementsClass, &ClassFindings)> = Vec::new();
        let mut i: usize = 0;
        while i < 11
            invariant
                0 <= i <= 11,
                self.wf(),
                forall|k: int|
                    0 <= k < out@.len() ==> self.holds_entry(#[trigger] out@[k]) && class_index(
                        out@[k].0,
                    ) < i,
                forall|k: int, l: int|
                    0 <= k < l < out@.len() ==> class_index(#[trigger] out@[k].0) < class_index(
                        #[trigger] out@[l].0,
                    ),
                forall|j: int|
                    0 <= j < i && #[trigger] self.listed(class_at(j)) ==> exists|k: int|
                        0 <= k < out@.len() && out@[k].0 == class_at(j),
            decreases 11 - i,
        {
            let c = RequirementsClass::at(i);
            let ghost before = out@;
            match &self.slots[i] {
                Some(f) => {
                    proof {
                        assert(class_index(c) == i);
                        assert(self.holds_entry((c, f)));
                    }
                    out.push((c, f));
                    proof {
                        assert(out@ == before.push((c, f)));
                        assert forall|k: int, l: int|
                            0 <= k < l < out@.len() implies class_index(#[trigger] out@[k].0)
                            < class_index(#[trigger] out@[l].0) by {
                            assert(out@[k] == before[k]);
                            if l < before.len() {
                                assert(out@[l] == before[l]);
                            }
                        }
                        assert forall|j: int|
                            0 <= j < i + 1 && #[trigger] self.listed(class_at(j)) implies exists|
                            k: int,
                        | 0 <= k < out@.len() && out@[k].0 == class_at(j) by {
                            if j < i {
                                let k = choose|k: int|
                                    0 <= k < before.len() && before[k].0 == class_at(j);
                                assert(out@[k] == before[k]);
                            } else {
                                assert(out@[out@.len() - 1].0 == class_at(j));
                            }
                        }
                    }
                },
                None => {
                    proof {
                        assert(class_index(class_at(i as int)) == i);
                        assert(!self.listed(class_at(i as int)));
                    }
                },
            }
            i += 1;
        }
        proof {
            assert forall|c: RequirementsClass| #[trigger] self.listed(c) implies exists|k: int|
                0 <= k < out@.len() && out@[k].0 == c by {
                assert(class_at(class_index(c)) == c);
                assert(self.listed(class_at(class_index(c))));
            }
        }
        out
    }
}

/// Conformance is exactly every class passing, and warnings never count:
/// a report conforms iff no class has a violation.
pub proof fn conformant_iff_every_class_passes(r: ConformanceReport)
    ensures
        r.conformant() <==> forall|c: RequirementsClass| #[trigger] r.entry(c).violations.len() == 0,
{
    if r.conformant() {
        assert forall|c: RequirementsClass| #[trigger] r.entry(c).violations.len() == 0 by {
            assert(r.passed(c));
        }
    }
}

/// Recording a warning never changes whether any class passes, nor whether
/// the report conforms.
pub proof fn warnings_never_affect_conformance(
    before: ConformanceReport,
    after: ConformanceReport,
    warning: CdbWarningModel,
)
    requires
        before.wf(),
        ({
            let c = warning_class_of(warning);
            &&& after.entry(c) == (FindingsModel {
                warnings: before.entry(c).warnings.push(warning),
                ..before.entry(c)
            })
            &&& before.same_except(after, c)
        }),
    ensures
        forall|c: RequirementsClass| #[trigger] after.passed(c) == before.passed(c),
        after.conformant() == before.conformant(),
{
    assert forall|c: RequirementsClass| #[trigger] after.passed(c) == before.passed(c) by {
        if c != warning_class_of(warning) {
            assert(after.entry(c) == before.entry(c));
        }
    }
    if before.conformant() {
        assert forall|c: RequirementsClass| #[trigger] after.passed(c) by {
            assert(before.passed(c));
        }
    }
    if after.conformant() {
        assert forall|c: RequirementsClass| #[trigger] before.passed(c) by {
            assert(after.passed(c));
        }
    }
}

/// Recording a violation fails its own class, and only its class: every
/// other class passes exactly when it passed before, and the report no
/// longer conforms.
pub proof fn a_violation_fails_only_its_class(
    before: ConformanceReport,
    after: ConformanceReport,
    violation: CdbViolationModel,
)
    requires
        before.wf(),
        ({
            let n = normalized(violation);
            let c = class_of(n);
            &&& after.entry(c) == (FindingsModel {
                violations: before.entry(c).violations.push(n),
                ..before.entry(c)
            })
            &&& before.same_except(after, c)
        }),
    ensures
        !after.passed(class_of(normalized(violation))),
        forall|d: RequirementsClass|
            d != class_of(normalized(violation)) ==> #[trigger] after.passed(d) == before.passed(d),
        !after.conformant(),
{
    let c = class_of(normalized(violation));
    assert(!after.passed(c));
    assert forall|d: RequirementsClass| d != c implies #[trigger] after.passed(d) == before.passed(
        d,
    ) by {
        assert(after.entry(d) == before.entry(d));
    }
}

/// Marking content, or declaring a class, never changes whether any class
/// passes: content only separates checked-and-clean from
/// checked-with-no-content.
pub proof fn content_never_affects_conformance(
    before: ConformanceReport,
    after: ConformanceReport,
    c: RequirementsClass,
    content: bool,
)
    requires
        before.wf(),
        after.entry(c) == (FindingsModel { has_content: content, ..before.entry(c) }),
        before.same_except(after, c),
    ensures
        forall|d: RequirementsClass| #[trigger] after.passed(d) == before.passed(d),
        after.conformant() == before.conformant(),
{
    assert forall|d: RequirementsClass| #[trigger] after.passed(d) == before.passed(d) by {
        if d != c {
            assert(after.entry(d) == before.entry(d));
        }
    }
    if before.conformant() {
        assert forall|d: RequirementsClass| #[trigger] after.passed(d) by {
            assert(before.passed(d));
        }
    }
    if after.conformant() {
        assert forall|d: RequirementsClass| #[trigger] before.passed(d) by {
            assert(after.passed(d));
        }
    }
}

/// A stored violation is filed where its class says: normalizing a link
/// violation nested in a metadata violation keeps it under Links.
pub proof fn normalization_keeps_the_class(v: CdbViolationModel)
    ensures
        class_of(normalized(v)) == class_of(v),
{
}

// ---------------------------------------------------------------------------
// Which classes a report lists

/// One call that changes a report: declaring a class, marking content,
/// recording a violation or recording a warning.
pub enum ReportOp {
    Declare(RequirementsClass),
    Mark(RequirementsClass),
    Violation(CdbViolationModel),
    Warning(CdbWarningModel),
}

/// The class a call touches.
pub open spec fn op_class(op: ReportOp) -> RequirementsClass {
    match op {
        ReportOp::Declare(c) => c,
        ReportOp::Mark(c) => c,
        ReportOp::Violation(v) => class_of(normalized(v)),
        ReportOp::Warning(w) => warning_class_of(w),
    }
}

/// A report's content after one call, as the calls' contracts state it.
pub open spec fn apply_op(m: ReportModel, op: ReportOp) -> ReportModel {
    match op {
        ReportOp::Declare(c) => with_entry(m, c, model_entry(m, c)),
        ReportOp::Mark(c) => marked(m, c),
        ReportOp::Violation(v) => recorded(m, v),
        ReportOp::Warning(w) => warned(m, w),
    }
}

/// A report's content after a sequence of calls, in order.
pub open spec fn apply_ops(m: ReportModel, ops: Seq<ReportOp>) -> ReportModel
    decreases ops.len(),
{
    if ops.len() == 0 {
        m
    } else {
        apply_ops(apply_op(m, ops[0]), ops.drop_first())
    }
}

/// A fresh report lists every mandatory class and no other; after any
/// sequence of declarations, content marks and findings, a class is listed
/// exactly when it is mandatory or one of the calls touched it. (The
/// listing itself, `classes`, gives each listed class once, in order.)
pub proof fn listed_iff_mandatory_or_touched(m: ReportModel, ops: Seq<ReportOp>, c: RequirementsClass)
    requires
        m.slots.len() == 11,
        forall|d: RequirementsClass| #[trigger] (m.slots[class_index(d)] is Some) == is_mandatory(d),
    ensures
        apply_ops(m, ops).slots.len() == 11,
        (apply_ops(m, ops).slots[class_index(c)] is Some) <==> (is_mandatory(c) || exists|i: int|
            0 <= i < ops.len() && op_class(#[trigger] ops[i]) == c),
{
    lemma_listing_grows(m, ops, c);
}

/// After a sequence of calls, a class is listed exactly when it was listed
/// before or one of the calls touched it.
proof fn lemma_listing_grows(m: ReportModel, ops: Seq<ReportOp>, c: RequirementsClass)
    requires
        m.slots.len() == 11,
    ensures
        apply_ops(m, ops).slots.len() == 11,
        (apply_ops(m, ops).slots[class_index(c)] is Some) <==> ((m.slots[class_index(c)] is Some)
            || exists|i: int| 0 <= i < ops.len() && op_class(#[trigger] ops[i]) == c),
    decreases ops.len(),
{
    if ops.len() > 0 {
        let op = ops[0];
        let m1 = apply_op(m, op);
        let d = op_class(op);
        assert(class_index(d) == class_index(op_class(op)));
        assert(m1.slots =~= m.slots.update(class_index(d), m1.slots[class_index(d)]));
        assert(m1.slots[class_index(d)] is Some);
        if class_index(c) != class_index(d) {
            assert(m1.slots[class_index(c)] == m.slots[class_index(c)]);
        }
        lemma_listing_grows(m1, ops.drop_first(), c);
        assert forall|i: int| 0 <= i < ops.drop_first().len() implies ops.drop_first()[i] == ops[i
            + 1] by {}
        if exists|i: int| 0 <= i < ops.len() && op_class(#[trigger] ops[i]) == c {
            let i = choose|i: int| 0 <= i < ops.len() && op_class(#[trigger] ops[i]) == c;
            if i > 0 {
                assert(op_class(ops.drop_first()[i - 1]) == c);
            }
        }
        if exists|i: int| 0 <= i < ops.drop_first().len() && op_class(#[trigger] ops.drop_first()[i]) == c {
            let i = choose|i: int|
                0 <= i < ops.drop_first().len() && op_class(#[trigger] ops.drop_first()[i]) == c;
            assert(op_class(ops[i + 1]) == c);
        }
    }
}

} // verus!
