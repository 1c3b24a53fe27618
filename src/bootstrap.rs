//! Bootstrap of the tuple store as a state machine: find or create the store, write the
//! authorization model only when the store has none, and seed a newly created store with
//! the initial tuples in batches. The caller performs each action and reports the event.
use crate::codec::{get_initial_tuples, initial_tuples_spec};
use crate::store::{chunk_tuples, find_store, BATCH_SIZE};
use crate::text::owned;
use crate::types::{key_views, Store, TupleKey, TupleView};
use vstd::prelude::*;

verus! {

/// Where a bootstrap stands.
#[derive(Debug, Clone, Copy, PartialEq, Eq, Structural)]
pub enum BootstrapPhase {
    ListingStores,
    CreatingStore,
    ReadingModel,
    WritingModel,
    Seeding,
    Finished,
}

/// What the caller does next.
#[derive(Debug, Clone, PartialEq, Eq)]
pub enum BootstrapAction {
    /// List the stores.
    ListStores,
    /// Create a store of this name.
    CreateStore(String),
    /// Ask for the latest authorization model.
    GetLatestModel,
    /// Write the authorization model.
    WriteModel,
    /// Write the batch of initial tuples with this index.
    WriteTuples(usize),
    /// Nothing is left to do.
    Done,
}

/// What the caller reports back.
pub enum BootstrapEvent {
    StoresListed(Vec<Store>),
    StoreCreated(String),
    LatestModel(Option<String>),
    ModelWritten(String),
    /// A batch write ended; `true` when it succeeded. Either way seeding goes on.
    TuplesWritten(bool),
}

/// Whether an event is the answer that a phase waits for.
pub open spec fn answers(phase: BootstrapPhase, event: BootstrapEvent) -> bool {
    match (phase, event) {
        (BootstrapPhase::ListingStores, BootstrapEvent::StoresListed(_)) => true,
        (BootstrapPhase::CreatingStore, BootstrapEvent::StoreCreated(_)) => true,
        (BootstrapPhase::ReadingModel, BootstrapEvent::LatestModel(_)) => true,
        (BootstrapPhase::WritingModel, BootstrapEvent::ModelWritten(_)) => true,
        (BootstrapPhase::Seeding, BootstrapEvent::TuplesWritten(_)) => true,
        _ => false,
    }
}

/// The state of a bootstrap.
pub struct Bootstrap {
    pub store_name: String,
    pub store_id: String,
    pub model_id: Option<String>,
    /// Whether the store was created by this bootstrap; only such a store is seeded.
    pub is_new_store: bool,
    /// The batches of initial tuples, once seeding starts.
    pub batches: Vec<Vec<TupleKey>>,
    /// The batch being written while seeding.
    pub next_batch: usize,
    pub phase: BootstrapPhase,
}

impl Bootstrap {
    /// The batches are the initial tuples in order, each of at most `BATCH_SIZE`.
    pub open spec fn batches_ok(&self) -> bool {
        &&& self.batches@.map_values(|c: Vec<TupleKey>| key_views(c@)).flatten() == initial_tuples_spec()
        &&& forall|i: int| 0 <= i < self.batches@.len() ==> 0 < #[trigger] self.batches@[i]@.len() <= BATCH_SIZE
    }

    /// Well formed: seeding happens only for a new store, over the initial batches, and
    /// with a batch left to write.
    pub open spec fn wf(&self) -> bool {
        &&& self.phase == BootstrapPhase::Seeding ==> self.is_new_store && self.batches_ok()
            && self.next_batch < self.batches@.len()
    }

    /// A bootstrap of the store named `store_name`; the first action lists the stores.
    pub fn start(store_name: &str) -> (r: (Bootstrap, BootstrapAction))
        ensures
            r.0.wf(),
            r.0.store_name@ == store_name@,
            r.0.phase == BootstrapPhase::ListingStores,
            r.1 == BootstrapAction::ListStores,
    {
        let b = Bootstrap {
            store_name: owned(store_name),
            store_id: String::new(),
            model_id: None,
            is_new_store: false,
            batches: Vec::new(),
            next_batch: 0,
            phase: BootstrapPhase::ListingStores,
        };
        (b, BootstrapAction::ListStores)
    }

    /// Once the model is known: seed a new store from its first batch, else finish.
    fn after_model(&mut self) -> (a: BootstrapAction)
        ensures
            final(self).store_name == old(self).store_name,
            final(self).store_id == old(self).store_id,
            final(self).model_id == old(self).model_id,
            final(self).is_new_store == old(self).is_new_store,
            final(self).wf(),
            old(self).is_new_store ==> final(self).phase == BootstrapPhase::Seeding && final(self).batches_ok()
                && final(self).next_batch == 0 && a == BootstrapAction::WriteTuples(0),
            !old(self).is_new_store ==> final(self).phase == BootstrapPhase::Finished && a
                == BootstrapAction::Done,
    {
        if self.is_new_store {
            let initial = get_initial_tuples();
            self.batches = chunk_tuples(&initial, BATCH_SIZE);
            self.next_batch = 0;
            proof {
                reveal_with_fuel(Seq::flatten, 2);
                if self.batches@.len() == 0 {
                    assert(self.batches@.map_values(|c: Vec<TupleKey>| key_views(c@)) =~= Seq::<Seq<TupleView>>::empty());
                    lemma_initial_not_empty();
                }
            }
            self.phase = BootstrapPhase::Seeding;
            BootstrapAction::WriteTuples(0)
        } else {
            self.phase = BootstrapPhase::Finished;
            BootstrapAction::Done
        }
    }

    /// Takes in what the last action brought and says what to do next. An event that does
    /// not answer the current phase changes nothing and asks again for what is pending.
    pub fn step(&mut self, event: BootstrapEvent) -> (a: BootstrapAction)
        requires
            old(self).wf(),
        ensures
            final(self).wf(),
            final(self).store_name == old(self).store_name,
            // a store of the name is used as it is and never seeded
            old(self).phase == BootstrapPhase::ListingStores ==> (event matches BootstrapEvent::StoresListed(
                stores,
            ) ==> ({
                let found = exists|i: int| 0 <= i < stores@.len() && stores@[i].name@ == old(self).store_name@;
                &&& found ==> final(self).phase == BootstrapPhase::ReadingModel && !final(self).is_new_store
                    && a == BootstrapAction::GetLatestModel && exists|i: int|
                    0 <= i < stores@.len() && stores@[i].name@ == old(self).store_name@ && final(self).store_id@
                        == stores@[i].id@ && forall|j: int| 0 <= j < i ==> stores@[j].name@ != old(self).store_name@
                &&& !found ==> final(self).phase == BootstrapPhase::CreatingStore && (a matches BootstrapAction::CreateStore(n)
                    && n@ == old(self).store_name@)
            })),
            // a created store is new
            old(self).phase == BootstrapPhase::CreatingStore ==> (event matches BootstrapEvent::StoreCreated(id)
                ==> final(self).phase == BootstrapPhase::ReadingModel && final(self).is_new_store
                && final(self).store_id == id && a == BootstrapAction::GetLatestModel),
            // the model is written only when there is none
            old(self).phase == BootstrapPhase::ReadingModel ==> (event matches BootstrapEvent::LatestModel(m) ==> (
            match m {
                None => final(self).phase == BootstrapPhase::WritingModel && a == BootstrapAction::WriteModel
                    && final(self).is_new_store == old(self).is_new_store && final(self).store_id == old(self).store_id,
                Some(id) => final(self).model_id == Some(id) && final(self).store_id == old(self).store_id
                    && final(self).is_new_store == old(self).is_new_store && (old(self).is_new_store ==> (
                final(self).phase == BootstrapPhase::Seeding && final(self).next_batch == 0 && a
                    == BootstrapAction::WriteTuples(0))) && (!old(self).is_new_store ==> (final(self).phase
                    == BootstrapPhase::Finished && a == BootstrapAction::Done)),
            })),
            old(self).phase == BootstrapPhase::WritingModel ==> (event matches BootstrapEvent::ModelWritten(id)
                ==> final(self).model_id == Some(id) && final(self).store_id == old(self).store_id
                && final(self).is_new_store == old(self).is_new_store && (old(self).is_new_store ==> (
            final(self).phase == BootstrapPhase::Seeding && final(self).next_batch == 0 && a
                == BootstrapAction::WriteTuples(0))) && (!old(self).is_new_store ==> (final(self).phase
                == BootstrapPhase::Finished && a == BootstrapAction::Done))),
            // every batch is written in turn, whether or not the one before succeeded
            (old(self).phase == BootstrapPhase::Seeding && event is TuplesWritten) ==> (
            if old(self).next_batch + 1 < old(self).batches@.len() {
                final(self).phase == BootstrapPhase::Seeding && final(self).next_batch == old(self).next_batch + 1
                    && a == BootstrapAction::WriteTuples((old(self).next_batch + 1) as usize)
            } else {
                final(self).phase == BootstrapPhase::Finished && a == BootstrapAction::Done
            }),
            old(self).phase == BootstrapPhase::Finished ==> final(self).phase == BootstrapPhase::Finished && a
                == BootstrapAction::Done,
            // an event out of turn changes nothing
            !answers(old(self).phase, event) ==> {
                &&& final(self).phase == old(self).phase
                &&& final(self).store_id == old(self).store_id
                &&& final(self).model_id == old(self).model_id
                &&& final(self).is_new_store == old(self).is_new_store
                &&& final(self).next_batch == old(self).next_batch
                &&& final(self).batches == old(self).batches
            },
    {
        match (self.phase, event) {
            (BootstrapPhase::ListingStores, BootstrapEvent::StoresListed(stores)) => {
                match find_store(&stores, self.store_name.as_str()) {
                    Some(id) => {
                        self.store_id = id;
                        self.is_new_store = false;
                        self.phase = BootstrapPhase::ReadingModel;
                        BootstrapAction::GetLatestModel
                    },
                    None => {
                        self.phase = BootstrapPhase::CreatingStore;
                        BootstrapAction::CreateStore(owned(self.store_name.as_str()))
                    },
                }
            },
            (BootstrapPhase::CreatingStore, BootstrapEvent::StoreCreated(id)) => {
                self.store_id = id;
                self.is_new_store = true;
                self.phase = BootstrapPhase::ReadingModel;
                BootstrapAction::GetLatestModel
            },
            (BootstrapPhase::ReadingModel, BootstrapEvent::LatestModel(m)) => {
                match m {
                    None => {
                        self.phase = BootstrapPhase::WritingModel;
                        BootstrapAction::WriteModel
                    },
                    Some(id) => {
                        self.model_id = Some(id);
                        self.after_model()
                    },
                }
            },
            (BootstrapPhase::WritingModel, BootstrapEvent::ModelWritten(id)) => {
                self.model_id = Some(id);
                self.after_model()
            },
            (BootstrapPhase::Seeding, BootstrapEvent::TuplesWritten(_)) => {
                let last = self.batches.len() - 1;
                if self.next_batch < last {
                    self.next_batch = self.next_batch + 1;
                    BootstrapAction::WriteTuples(self.next_batch)
                } else {
                    self.phase = BootstrapPhase::Finished;
                    BootstrapAction::Done
                }
            },
            _ => self.pending(),
        }
    }

    /// The action that the current phase waits on.
    pub fn pending(&self) -> (a: BootstrapAction)
        ensures
            self.phase == BootstrapPhase::ListingStores ==> a == BootstrapAction::ListStores,
            self.phase == BootstrapPhase::CreatingStore ==> (a matches BootstrapAction::CreateStore(n) && n@
                == self.store_name@),
            self.phase == BootstrapPhase::ReadingModel ==> a == BootstrapAction::GetLatestModel,
            self.phase == BootstrapPhase::WritingModel ==> a == BootstrapAction::WriteModel,
            self.phase == BootstrapPhase::Seeding ==> a == BootstrapAction::WriteTuples(self.next_batch),
            self.phase == BootstrapPhase::Finished ==> a == BootstrapAction::Done,
    {
        match self.phase {
            BootstrapPhase::ListingStores => BootstrapAction::ListStores,
            BootstrapPhase::CreatingStore => BootstrapAction::CreateStore(owned(self.store_name.as_str())),
            BootstrapPhase::ReadingModel => BootstrapAction::GetLatestModel,
            BootstrapPhase::WritingModel => BootstrapAction::WriteModel,
            BootstrapPhase::Seeding => BootstrapAction::WriteTuples(self.next_batch),
            BootstrapPhase::Finished => BootstrapAction::Done,
        }
    }
}

proof fn lemma_initial_not_empty()
    ensures
        initial_tuples_spec().len() > 0,
{
    assert(initial_tuples_spec().len() == 94);
}

} // verus!
