use vstd::prelude::*;

verus! {

/// The run's configuration: requested vocabulary size, output artifact path,
/// optional database path, and the list of plain-text corpus files.
pub struct TrainConfig {
    pub size: usize,
    pub out: String,
    pub db: Option<String>,
    pub txt: Vec<String>,
}

impl TrainConfig {
    /// A usable configuration names a positive vocabulary size and at least
    /// one corpus origin: a database path, or one or more text files.
    pub open spec fn wf(self) -> bool {
        &&& self.size >= 1
        &&& (self.db is Some || self.txt@.len() > 0)
    }

    pub fn validate(&self) -> (r: bool)
        ensures
            r == self.wf(),
    {
        self.size >= 1 && (self.db.is_some() || self.txt.len() > 0)
    }
}

/// Where the training text comes from: the values stored under an embedded
/// ordered key-value store, or a list of plain-text files.
pub enum CorpusSource {
    Database(String),
    TextFiles(Vec<String>),
}

/// Selects the corpus origin: a database path, when given, takes precedence,
/// and the text files are ignored; without one, the text files are the corpus.
pub fn choose_source(db: Option<String>, txt: Vec<String>) -> (r: CorpusSource)
    ensures
        db is Some ==> r == CorpusSource::Database(db->0),
        db is None ==> r == CorpusSource::TextFiles(txt),
{
    match db {
        Some(path) => CorpusSource::Database(path),
        None => CorpusSource::TextFiles(txt),
    }
}

} // verus!
