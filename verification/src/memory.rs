//! The memory that is carried from one turn with the model to the next: a
//! short list of texts, oldest first, and its form on disk.

use crate::json::{decode, decoded, encode, encoded};
use crate::text::texts;
use vstd::prelude::*;

verus! {

#[verifier::external_type_specification]
#[verifier::external_body]
pub struct ExIoError(std::io::Error);

/// The most entries a memory holds.
pub const MAX_MEMORIES: usize = 5;

/// The entries of a memory, oldest first.
#[derive(Debug)]
pub struct Memories(pub Vec<String>);

impl View for Memories {
    type V = Seq<Seq<char>>;

    open spec fn view(&self) -> Seq<Seq<char>> {
        texts(self.0@)
    }
}

/// The last `limit` of `entries`, or all of them where they are no more than
/// that.
pub open spec fn newest<T>(entries: Seq<T>, limit: nat) -> Seq<T> {
    if entries.len() <= limit {
        entries
    } else {
        entries.subrange(entries.len() - limit, entries.len() as int)
    }
}

impl Memories {
    /// Whether the memory keeps to its bound.
    pub open spec fn wf(&self) -> bool {
        self.0@.len() <= MAX_MEMORIES
    }

    /// The memory the pipeline starts with: no entries.
    pub fn empty() -> (memories: Memories)
        ensures
            memories@ == Seq::<Seq<char>>::empty(),
            memories.wf(),
    {
        let memories = Memories(Vec::new());
        assert(memories@ =~= Seq::<Seq<char>>::empty());
        memories
    }

    /// A memory of `entries`, cut to the bound: where there are more than
    /// [`MAX_MEMORIES`], the newest stay and the oldest are dropped.
    pub fn bounded(entries: Vec<String>) -> (memories: Memories)
        ensures
            memories@ == newest(texts(entries@), MAX_MEMORIES as nat),
            memories.0@ == newest(entries@, MAX_MEMORIES as nat),
            memories.wf(),
    {
        let mut entries = entries;
        let ghost all = entries@;
        if entries.len() > MAX_MEMORIES {
            let at: usize = entries.len() - MAX_MEMORIES;
            let kept = entries.split_off(at);
            assert(texts(kept@) =~= newest(texts(all), MAX_MEMORIES as nat));
            Memories(kept)
        } else {
            Memories(entries)
        }
    }

    /// How many entries the memory holds.
    pub fn len(&self) -> (count: usize)
        ensures
            count == self@.len(),
    {
        self.0.len()
    }

    /// A copy of the memory.
    pub fn duplicate(&self) -> (copy: Memories)
        ensures
            copy@ == self@,
            copy.0@ == self.0@,
    {
        let mut entries: Vec<String> = Vec::new();
        let mut i: usize = 0;
        while i < self.0.len()
            invariant
                i <= self.0.len(),
                entries@ == self.0@.take(i as int),
            decreases self.0.len() - i,
        {
            entries.push(self.0[i].clone());
            i += 1;
        }
        assert(self.0@.take(self.0.len() as int) == self.0@);
        Memories(entries)
    }
}

/// Why a memory could not be saved or loaded.
#[derive(Debug)]
pub enum MemoryBackendError {
    /// The file could not be created or written.
    SaveMemoriesIOError(std::io::Error),
    /// The memory could not be written as JSON.
    SaveMemoriesSerialisationError(serde_json::Error),
    /// The file could not be opened or read.
    LoadMemoryIOError(std::io::Error),
    /// The file does not hold a JSON array of strings.
    LoadMemoriesDeserialisationError(serde_json::Error),
    Unknown,
}

/// The memory that a file with the contents `text` is loaded as: the array of
/// strings it holds, cut to the bound; `None` where it holds no such array.
pub open spec fn reloaded(text: Seq<char>) -> Option<Seq<Seq<char>>> {
    match decoded(text) {
        Some(entries) => Some(newest(entries, MAX_MEMORIES as nat)),
        None => None,
    }
}

/// The place on disk where a memory is kept. The file is read and written by
/// the caller; what goes into it and what is made of it is decided here.
pub struct MemoryBackend {
    filename: String,
}

impl MemoryBackend {
    /// The name of the file.
    pub closed spec fn filename(&self) -> Seq<char> {
        self.filename@
    }

    pub fn new(filename: String) -> (backend: Self)
        ensures
            backend.filename() == filename@,
    {
        MemoryBackend { filename }
    }

    /// The name of the file to create, write, open and read.
    pub fn path(&self) -> (path: &String)
        ensures
            path@ == self.filename(),
    {
        &self.filename
    }

    /// Decides what is written once the file was created, from the outcome
    /// `opened` of creating it and the outcome `written` of turning the memory
    /// into JSON.
    pub fn text_to_save(
        opened: Result<(), std::io::Error>,
        written: Result<String, serde_json::Error>,
    ) -> (result: Result<String, MemoryBackendError>)
        ensures
            match (opened, written) {
                (Err(e), _) => result == Err::<String, MemoryBackendError>(
                    MemoryBackendError::SaveMemoriesIOError(e),
                ),
                (Ok(_), Err(e)) => result == Err::<String, MemoryBackendError>(
                    MemoryBackendError::SaveMemoriesSerialisationError(e),
                ),
                (Ok(_), Ok(text)) => result == Ok::<String, MemoryBackendError>(text),
            },
    {
        match opened {
            Err(e) => Err(MemoryBackendError::SaveMemoriesIOError(e)),
            Ok(_) => match written {
                Err(e) => Err(MemoryBackendError::SaveMemoriesSerialisationError(e)),
                Ok(text) => Ok(text),
            },
        }
    }

    /// The text to write into the file that was just created, with `opened`
    /// the outcome of creating it: the memory as a JSON array of strings.
    ///
    /// Where the file could not be created nothing is written, and the memory
    /// is not turned into JSON. A memory within its bound that was saved is
    /// loaded again as it was: the same entries in the same order.
    pub fn save_memories(&self, memories: &Memories, opened: Result<(), std::io::Error>) -> (result:
        Result<String, MemoryBackendError>)
        ensures
            match opened {
                Err(e) => result == Err::<String, MemoryBackendError>(
                    MemoryBackendError::SaveMemoriesIOError(e),
                ),
                Ok(_) => match encoded(memories@) {
                    Some(text) => result matches Ok(saved) && saved@ == text,
                    None => result matches Err(
                        MemoryBackendError::SaveMemoriesSerialisationError(_),
                    ),
                },
            },
            memories.wf() ==> (result matches Ok(saved) ==> reloaded(saved@) == Some(memories@)),
    {
        match opened {
            Err(e) => Err(MemoryBackendError::SaveMemoriesIOError(e)),
            Ok(_) => Self::text_to_save(opened, encode(&memories.0)),
        }
    }

    /// Takes the outcome of writing the text into the file.
    pub fn saved(outcome: Result<(), std::io::Error>) -> (result: Result<(), MemoryBackendError>)
        ensures
            match outcome {
                Ok(_) => result == Ok::<(), MemoryBackendError>(()),
                Err(e) => result == Err::<(), MemoryBackendError>(
                    MemoryBackendError::SaveMemoriesIOError(e),
                ),
            },
    {
        match outcome {
            Ok(_) => Ok(()),
            Err(e) => Err(MemoryBackendError::SaveMemoriesIOError(e)),
        }
    }

    /// Decides what memory a file gives, from the outcome `read` of reading it
    /// into JSON entries: the entries, cut to the bound.
    pub fn memories_read(read: Result<Vec<String>, serde_json::Error>) -> (result: Result<
        Memories,
        MemoryBackendError,
    >)
        ensures
            match read {
                Ok(entries) => result matches Ok(memories) && memories.0@ == newest(
                    entries@,
                    MAX_MEMORIES as nat,
                ) && memories.wf(),
                Err(e) => result matches Err(
                    MemoryBackendError::LoadMemoriesDeserialisationError(f),
                ) && f == e,
            },
    {
        match read {
            Ok(entries) => Ok(Memories::bounded(entries)),
            Err(e) => Err(MemoryBackendError::LoadMemoriesDeserialisationError(e)),
        }
    }

    /// The memory that the file holds, with `contents` the outcome of opening
    /// and reading it.
    ///
    /// A file that holds more than [`MAX_MEMORIES`] entries gives the newest of
    /// them.
    pub fn load_memories(&self, contents: Result<String, std::io::Error>) -> (result: Result<
        Memories,
        MemoryBackendError,
    >)
        ensures
            match contents {
                Err(e) => result matches Err(MemoryBackendError::LoadMemoryIOError(f)) && f == e,
                Ok(text) => match reloaded(text@) {
                    Some(entries) => result matches Ok(memories) && memories@ == entries
                        && memories.wf(),
                    None => result matches Err(
                        MemoryBackendError::LoadMemoriesDeserialisationError(_),
                    ),
                },
            },
    {
        match contents {
            Err(e) => Err(MemoryBackendError::LoadMemoryIOError(e)),
            Ok(text) => {
                let read = decode(text.as_str());
                proof {
                    if read is Ok {
                        let entries = read->Ok_0@;
                        assert(texts(newest(entries, MAX_MEMORIES as nat)) =~= newest(
                            texts(entries),
                            MAX_MEMORIES as nat,
                        ));
                    }
                }
                Self::memories_read(read)
            },
        }
    }

    /// The memory to start with, given the outcome of loading: what was
    /// loaded, or no entries where nothing could be.
    pub fn restored(loaded: Result<Memories, MemoryBackendError>) -> (memories: Memories)
        ensures
            match loaded {
                Ok(found) => memories == found,
                Err(_) => memories@ == Seq::<Seq<char>>::empty() && memories.wf(),
            },
    {
        match loaded {
            Ok(found) => found,
            Err(_) => Memories::empty(),
        }
    }
}

} // verus!
