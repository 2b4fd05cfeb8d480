//! Descriptions of neuroscience recordings and the studies they come from.

use vstd::prelude::*;
use vstd::string::*;

verus! {

/// Relies on chrono's `Local::now` and `format("%Y-%m-%d")`: today's date in
/// the machine's time zone.
#[verifier::external_body]
fn today_date() -> (r: String) {
    chrono::Local::now().format("%Y-%m-%d").to_string()
}

/// The recording technique behind a dataset.
#[derive(Debug, Clone, Copy, PartialEq, Eq, Structural)]
pub enum NeuralDataFormat {
    EEG,
    FMRI,
    MEG,
    PET,
    MRI,
    CT,
    SPECT,
    ECOG,
    SingleUnitRecording,
    Custom,
}

/// Who was studied, how, where and by whom.
#[derive(Debug, Clone, PartialEq, Eq)]
pub struct BrainStudyMetadata {
    pub subject_id: String,
    pub age: Option<u8>,
    pub sex: Option<String>,
    pub diagnosis: Option<String>,
    pub study_date: String,
    pub experiment_type: String,
    pub institution: String,
    pub researchers: Vec<String>,
    /// Pieces of equipment and their details, at most one entry per name.
    pub equipment: Vec<(String, String)>,
    pub notes: Option<String>,
    pub protocol_id: Option<String>,
}

/// Whether no two entries share a name.
pub open spec fn names_unique(entries: Seq<(String, String)>) -> bool {
    forall|i: int, j: int|
        0 <= i < entries.len() && 0 <= j < entries.len() && i != j ==> (#[trigger] entries[i]).0@
            != (#[trigger] entries[j]).0@
}

impl BrainStudyMetadata {
    /// Metadata for a study dated today, with no optional details yet.
    pub fn new(subject_id: &str, experiment_type: &str, institution: &str) -> (r: Self)
        ensures
            r.subject_id@ == subject_id@,
            r.experiment_type@ == experiment_type@,
            r.institution@ == institution@,
            r.age is None,
            r.sex is None,
            r.diagnosis is None,
            r.notes is None,
            r.protocol_id is None,
            r.researchers@.len() == 0,
            r.equipment@.len() == 0,
    {
        BrainStudyMetadata {
            subject_id: String::from_str(subject_id),
            age: None,
            sex: None,
            diagnosis: None,
            study_date: today_date(),
            experiment_type: String::from_str(experiment_type),
            institution: String::from_str(institution),
            researchers: Vec::new(),
            equipment: Vec::new(),
            notes: None,
            protocol_id: None,
        }
    }

    /// Add a researcher to the end of the list.
    pub fn add_researcher(&mut self, name: &str)
        ensures
            final(self).researchers@.len() == old(self).researchers@.len() + 1,
            final(self).researchers@.subrange(0, old(self).researchers@.len() as int)
                == old(self).researchers@,
            final(self).researchers@.last()@ == name@,
            final(self).equipment == old(self).equipment,
            final(self).subject_id == old(self).subject_id,
    {
        let ghost before = self.researchers@;
        self.researchers.push(String::from_str(name));
        assert(self.researchers@.subrange(0, before.len() as int) =~= before);
    }

    /// Record a piece of equipment; the details of one already recorded
    /// under that name are replaced.
    pub fn add_equipment(&mut self, name: &str, details: &str)
        requires
            names_unique(old(self).equipment@),
        ensures
            names_unique(final(self).equipment@),
            exists|i: int|
                0 <= i < final(self).equipment@.len() && (#[trigger] final(self).equipment@[i]).0@
                    == name@ && final(self).equipment@[i].1@ == details@,
            forall|i: int|
                0 <= i < old(self).equipment@.len() && (#[trigger] old(self).equipment@[i]).0@
                    != name@ ==> final(self).equipment@[i] == old(self).equipment@[i],
            final(self).equipment@.len() == old(self).equipment@.len() + if (exists|i: int|
                0 <= i < old(self).equipment@.len() && (#[trigger] old(self).equipment@[i]).0@
                    == name@) {
                0int
            } else {
                1int
            },
            final(self).researchers == old(self).researchers,
            final(self).subject_id == old(self).subject_id,
    {
        let key = String::from_str(name);
        let mut i: usize = 0;
        while i < self.equipment.len()
            invariant
                i <= self.equipment@.len(),
                key@ == name@,
                *self == *old(self),
                names_unique(self.equipment@),
                forall|j: int| 0 <= j < i ==> (#[trigger] self.equipment@[j]).0@ != name@,
            decreases self.equipment@.len() - i,
        {
            if self.equipment[i].0 == key {
                let ghost before = self.equipment@;
                let entry = (key, String::from_str(details));
                self.equipment.set(i, entry);
                assert forall|x: int| 0 <= x < before.len() implies (#[trigger] self.equipment@[x]).0@
                    == before[x].0@ by {}
                assert forall|a: int, b: int|
                    0 <= a < self.equipment@.len() && 0 <= b < self.equipment@.len() && a != b
                        implies (#[trigger] self.equipment@[a]).0@ != (#[trigger] self.equipment@[b]).0@ by {
                    assert(self.equipment@[a].0@ == before[a].0@);
                    assert(self.equipment@[b].0@ == before[b].0@);
                }
                assert(self.equipment@[i as int].0@ == name@);
                return;
            }
            i = i + 1;
        }
        let ghost before = self.equipment@;
        self.equipment.push((key, String::from_str(details)));
        assert(self.equipment@[before.len() as int].0@ == name@);
        assert forall|a: int, b: int|
            0 <= a < self.equipment@.len() && 0 <= b < self.equipment@.len() && a != b
                implies (#[trigger] self.equipment@[a]).0@ != (#[trigger] self.equipment@[b]).0@ by {
            if a < before.len() && b < before.len() {
                assert(before[a] == self.equipment@[a]);
                assert(before[b] == self.equipment@[b]);
            } else if a < before.len() {
                assert(before[a] == self.equipment@[a]);
            } else {
                assert(before[b] == self.equipment@[b]);
            }
        }
    }
}

} // verus!
