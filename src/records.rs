//! Researcher credentials and dataset descriptions.

use vstd::prelude::*;
use vstd::string::*;

verus! {

/// A researcher's credentials. The private key never leaves the process in
/// serialised form.
#[derive(Debug, Clone, PartialEq, Eq)]
pub struct ResearcherCredential {
    pub id: String,
    pub name: String,
    pub specialization: String,
    pub institution: String,
    pub publications: Vec<String>,
    pub private_key: Option<String>,
}

impl ResearcherCredential {
    /// Credentials with no publications and no private key.
    pub fn new(id: &str, name: &str, specialization: &str, institution: &str) -> (r: Self)
        ensures
            r.id@ == id@,
            r.name@ == name@,
            r.specialization@ == specialization@,
            r.institution@ == institution@,
            r.publications@.len() == 0,
            r.private_key is None,
    {
        ResearcherCredential {
            id: String::from_str(id),
            name: String::from_str(name),
            specialization: String::from_str(specialization),
            institution: String::from_str(institution),
            publications: Vec::new(),
            private_key: None,
        }
    }

    /// Add a publication id to the end of the list.
    pub fn add_publication(&mut self, publication_id: &str)
        ensures
            final(self).publications@.len() == old(self).publications@.len() + 1,
            final(self).publications@.subrange(0, old(self).publications@.len() as int)
                == old(self).publications@,
            final(self).publications@.last()@ == publication_id@,
            final(self).id == old(self).id,
            final(self).private_key == old(self).private_key,
    {
        let ghost before = self.publications@;
        self.publications.push(String::from_str(publication_id));
        assert(self.publications@.subrange(0, before.len() as int) =~= before);
    }
}

/// A published neuroscience dataset.
#[derive(Debug, Clone, PartialEq, Eq)]
pub struct NeuroscienceDataset {
    pub id: String,
    pub title: String,
    pub description: String,
    pub data_type: String,
    pub ipfs_hash: String,
    pub owner_id: String,
    pub timestamp: u64,
    pub license: String,
    pub keywords: Vec<String>,
    pub is_private: bool,
}

impl NeuroscienceDataset {
    /// A public dataset with no keywords.
    pub fn new(
        id: &str,
        title: &str,
        description: &str,
        data_type: &str,
        ipfs_hash: &str,
        owner_id: &str,
        timestamp: u64,
        license: &str,
    ) -> (r: Self)
        ensures
            r.id@ == id@,
            r.title@ == title@,
            r.description@ == description@,
            r.data_type@ == data_type@,
            r.ipfs_hash@ == ipfs_hash@,
            r.owner_id@ == owner_id@,
            r.timestamp == timestamp,
            r.license@ == license@,
            r.keywords@.len() == 0,
            !r.is_private,
    {
        NeuroscienceDataset {
            id: String::from_str(id),
            title: String::from_str(title),
            description: String::from_str(description),
            data_type: String::from_str(data_type),
            ipfs_hash: String::from_str(ipfs_hash),
            owner_id: String::from_str(owner_id),
            timestamp,
            license: String::from_str(license),
            keywords: Vec::new(),
            is_private: false,
        }
    }

    /// Add a keyword to the end of the list.
    pub fn add_keyword(&mut self, keyword: &str)
        ensures
            final(self).keywords@.len() == old(self).keywords@.len() + 1,
            final(self).keywords@.subrange(0, old(self).keywords@.len() as int)
                == old(self).keywords@,
            final(self).keywords@.last()@ == keyword@,
            final(self).id == old(self).id,
            final(self).is_private == old(self).is_private,
    {
        let ghost before = self.keywords@;
        self.keywords.push(String::from_str(keyword));
        assert(self.keywords@.subrange(0, before.len() as int) =~= before);
    }

    /// Mark the dataset private or public.
    pub fn set_private(&mut self, is_private: bool)
        ensures
            final(self).is_private == is_private,
            final(self).keywords == old(self).keywords,
            final(self).id == old(self).id,
    {
        self.is_private = is_private;
    }
}

} // verus!
