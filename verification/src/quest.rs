//! Quests: long running jobs of the daemon, each with a state, progress and sub-quests.
//!
//! A quest is held here as plain data; the daemon shares quests between tasks and hands
//! their values to these functions.
use crate::instance::id::{instance_id_text, InstanceId};
use crate::num::{decimal_chars, decimal_spec};
use crate::text::{chars_of_string, concat_chars, opt_view, string_from, string_of};
use vstd::prelude::*;

verus! {

/// The number of a quest.
#[derive(Debug, Clone, Copy, PartialEq, Eq, Hash, Structural)]
pub struct QuestId(pub u64);

/// What a finished quest produced.
#[derive(Debug, Clone, PartialEq, Eq)]
pub enum QuestResult {
    /// Nothing worth reporting.
    NoResult,
    /// The instance that was created.
    InstanceId(InstanceId),
    /// The export that was written.
    ExportId(String),
}

/// The text reported for a result, if any.
pub open spec fn result_text(result: QuestResult) -> Option<Seq<char>> {
    match result {
        QuestResult::NoResult => None,
        QuestResult::InstanceId(id) => Some(instance_id_text(id.value)),
        QuestResult::ExportId(id) => Some(id@),
    }
}

impl QuestResult {
    /// The text reported for the result: the instance id or the export id.
    pub fn to_model_string(&self) -> (res: Option<String>)
        ensures
            opt_view(res) == result_text(*self),
    {
        match self {
            QuestResult::NoResult => None,
            QuestResult::InstanceId(id) => Some(id.to_string()),
            QuestResult::ExportId(id) => Some(id.clone()),
        }
    }
}

/// Where a quest stands.
#[derive(Debug, Clone, Copy, PartialEq, Eq, Structural)]
pub enum State {
    Failing,
    Ongoing,
    Pending,
    Failed,
    Success,
    Skipped,
}

/// A quest in one of these states does not change any more.
pub open spec fn finished(state: State) -> bool {
    state is Failed || state is Success || state is Skipped
}

/// The name of a state.
pub open spec fn state_text(state: State) -> Seq<char> {
    match state {
        State::Failing => seq!['F', 'a', 'i', 'l', 'i', 'n', 'g'],
        State::Ongoing => seq!['O', 'n', 'g', 'o', 'i', 'n', 'g'],
        State::Pending => seq!['P', 'e', 'n', 'd', 'i', 'n', 'g'],
        State::Failed => seq!['F', 'a', 'i', 'l', 'e', 'd'],
        State::Success => seq!['S', 'u', 'c', 'c', 'e', 's', 's'],
        State::Skipped => seq!['S', 'k', 'i', 'p', 'p', 'e', 'd'],
    }
}

impl State {
    /// Whether the state is final: failed, succeeded or skipped.
    pub fn is_finished(&self) -> (res: bool)
        ensures
            res == finished(*self),
    {
        match self {
            State::Failed | State::Success | State::Skipped => true,
            _ => false,
        }
    }

    /// The name of the state.
    pub fn to_string(&self) -> (res: String)
        ensures
            res@ == state_text(*self),
    {
        match self {
            State::Failing => {
                proof {
                    reveal_strlit("Failing");
                }
                string_from("Failing")
            },
            State::Ongoing => {
                proof {
                    reveal_strlit("Ongoing");
                }
                string_from("Ongoing")
            },
            State::Pending => {
                proof {
                    reveal_strlit("Pending");
                }
                string_from("Pending")
            },
            State::Failed => {
                proof {
                    reveal_strlit("Failed");
                }
                string_from("Failed")
            },
            State::Success => {
                proof {
                    reveal_strlit("Success");
                }
                string_from("Success")
            },
            State::Skipped => {
                proof {
                    reveal_strlit("Skipped");
                }
                string_from("Skipped")
            },
        }
    }
}

/// How far a quest got: `current` steps of `total`, where the total is known.
#[derive(Debug, Clone, Copy, PartialEq, Eq, Structural)]
pub struct Progress {
    pub current: u64,
    pub total: Option<u64>,
}

impl Default for Progress {
    fn default() -> (res: Self)
        ensures
            res.current == 0,
            res.total is None,
    {
        Progress { current: 0, total: None }
    }
}

/// What a running job reports about itself. An implementation answers each question with
/// the value its `reported_` function names.
pub trait StatusUpdate {
    /// The progress the job reports.
    spec fn reported_progress(&self) -> Option<Progress>;

    /// The description of what the job does right now, as the job reports it.
    spec fn reported_details(&self) -> Option<String>;

    /// The new state the job reports, where it changed.
    spec fn reported_state(&self) -> Option<State>;

    /// The progress of the job.
    fn progress(&self) -> (res: Option<Progress>)
        ensures
            res == self.reported_progress(),
    ;

    /// A description of what the job does right now.
    fn details(&self) -> (res: Option<String>)
        ensures
            res == self.reported_details(),
    ;

    /// The new state of the job, where it changed.
    fn state(&self) -> (res: Option<State>)
        ensures
            res == self.reported_state(),
    ;
}

/// A quest and its sub-quests.
#[derive(Debug)]
pub struct Quest {
    pub id: QuestId,
    pub description: String,
    pub detail: Option<String>,
    pub sub_quests: Vec<Quest>,
    pub progress: Option<Progress>,
    pub state: State,
    pub result: QuestResult,
}

/// The number of finished quests among `quests`.
pub open spec fn finished_count(quests: Seq<Quest>) -> nat
    decreases quests.len(),
{
    if quests.len() == 0 {
        0
    } else {
        finished_count(quests.drop_last()) + if finished(quests.last().state) {
            1nat
        } else {
            0nat
        }
    }
}

proof fn lemma_finished_count_bound(quests: Seq<Quest>)
    ensures
        finished_count(quests) <= quests.len(),
    decreases quests.len(),
{
    if quests.len() > 0 {
        lemma_finished_count_bound(quests.drop_last());
    }
}

impl Quest {
    /// A new pending quest without detail, progress, sub-quests or result.
    pub fn new(id: QuestId, description: String) -> (res: Self)
        ensures
            res.id == id,
            res.description == description,
            res.detail is None,
            res.sub_quests@.len() == 0,
            res.progress is None,
            res.state == State::Pending,
            res.result == QuestResult::NoResult,
    {
        Quest {
            id,
            description,
            detail: None,
            sub_quests: Vec::new(),
            progress: None,
            state: State::Pending,
            result: QuestResult::NoResult,
        }
    }

    /// Whether `self` and `other` agree in everything but state, detail and progress.
    pub open spec fn same_job(&self, other: &Quest) -> bool {
        &&& self.id == other.id
        &&& self.description == other.description
        &&& self.sub_quests@ == other.sub_quests@
        &&& self.result == other.result
    }

    /// The progress of a quest with sub-quests: how many of them finished, out of all.
    pub fn sub_quest_progress(&self) -> (res: Progress)
        ensures
            res.current == finished_count(self.sub_quests@),
            res.total == Some(self.sub_quests@.len() as u64),
    {
        let mut current: u64 = 0;
        let mut i: usize = 0;
        while i < self.sub_quests.len()
            invariant
                i <= self.sub_quests.len(),
                current == finished_count(self.sub_quests@.subrange(0, i as int)),
            decreases self.sub_quests.len() - i,
        {
            assert(self.sub_quests@.subrange(0, i + 1).drop_last() =~= self.sub_quests@.subrange(
                0,
                i as int,
            ));
            proof {
                lemma_finished_count_bound(self.sub_quests@.subrange(0, i as int));
            }
            if self.sub_quests[i].state.is_finished() {
                current = current + 1;
            }
            i = i + 1;
        }
        assert(self.sub_quests@.subrange(0, i as int) =~= self.sub_quests@);
        Progress { current, total: Some(self.sub_quests.len() as u64) }
    }

    /// Marks the quest as started.
    pub fn start(&mut self)
        ensures
            final(self).same_job(old(self)),
            final(self).state == State::Ongoing,
            final(self).detail == old(self).detail,
            final(self).progress == old(self).progress,
    {
        self.state = State::Ongoing;
    }

    /// Marks the quest as failed, with the error as its detail.
    pub fn fail_with_error(&mut self, error: &str)
        ensures
            final(self).same_job(old(self)),
            final(self).state == State::Failed,
            opt_view(final(self).detail) == Some(error@),
            final(self).progress == old(self).progress,
    {
        self.state = State::Failed;
        self.detail = Some(string_from(error));
    }

    /// Ends the quest with the outcome of its job: an error fails it, success makes it
    /// succeed unless it already reached a final state.
    pub fn finish(&mut self, error: Option<&str>)
        ensures
            final(self).same_job(old(self)),
            final(self).progress == old(self).progress,
            match error {
                Some(e) => final(self).state == State::Failed && opt_view(final(self).detail)
                    == Some(e@),
                None => final(self).detail == old(self).detail && final(self).state == if finished(
                    old(self).state,
                ) {
                    old(self).state
                } else {
                    State::Success
                },
            },
    {
        match error {
            Some(e) => self.fail_with_error(e),
            None => {
                if !self.state.is_finished() {
                    self.state = State::Success;
                }
            },
        }
    }

    /// Takes over what a job reported: a new state where it gives one, and its detail and
    /// progress as they are, also where they are absent.
    pub fn apply_update(
        &mut self,
        state: Option<State>,
        details: Option<String>,
        progress: Option<Progress>,
    )
        ensures
            final(self).same_job(old(self)),
            final(self).state == match state {
                Some(s) => s,
                None => old(self).state,
            },
            final(self).detail == details,
            final(self).progress == progress,
    {
        match state {
            Some(s) => self.state = s,
            None => {},
        }
        self.detail = details;
        self.progress = progress;
    }

    /// Takes over what `update` reports: its state where it reports one, and its detail and
    /// progress as they are, also where they are absent.
    pub fn update<T: StatusUpdate>(&mut self, update: &T)
        ensures
            final(self).same_job(old(self)),
            final(self).state == match update.reported_state() {
                Some(s) => s,
                None => old(self).state,
            },
            final(self).detail == update.reported_details(),
            final(self).progress == update.reported_progress(),
    {
        let state = update.state();
        let details = update.details();
        let progress = update.progress();
        self.apply_update(state, details, progress);
    }

    /// Adds `new_progress` steps: to the current progress, or as a progress of unknown total
    /// where there is none yet.
    pub fn add_progress(&mut self, new_progress: u64)
        requires
            old(self).progress matches Some(p) ==> p.current + new_progress <= u64::MAX,
        ensures
            final(self).same_job(old(self)),
            final(self).state == old(self).state,
            final(self).detail == old(self).detail,
            final(self).progress == match old(self).progress {
                Some(p) => Some(Progress { current: (p.current + new_progress) as u64, total: p.total }),
                None => Some(Progress { current: new_progress, total: None }),
            },
    {
        match self.progress {
            Some(p) => {
                self.progress = Some(Progress { current: p.current + new_progress, total: p.total });
            },
            None => {
                self.progress = Some(Progress { current: new_progress, total: None });
            },
        }
    }
}

impl Quest {
    /// Records what the job of the quest produced, unless a result is already recorded.
    pub fn record_result(&mut self, result: QuestResult)
        ensures
            final(self).id == old(self).id,
            final(self).description == old(self).description,
            final(self).sub_quests@ == old(self).sub_quests@,
            final(self).state == old(self).state,
            final(self).detail == old(self).detail,
            final(self).progress == old(self).progress,
            final(self).result == if old(self).result is NoResult {
                result
            } else {
                old(self).result
            },
    {
        if matches!(self.result, QuestResult::NoResult) {
            self.result = result;
        }
    }
}

/// Why a quest could not be deleted.
#[derive(Debug, Clone, Copy, PartialEq, Eq, Structural)]
pub enum DeleteQuestError {
    /// No quest has the id.
    Unknown,
    /// The quest has not reached a final state.
    StillRunning,
}

/// No two quests of the list share an id.
pub open spec fn ids_unique(quests: Seq<Quest>) -> bool {
    forall|i: int, j: int|
        0 <= i < quests.len() && 0 <= j < quests.len() && i != j ==> quests[i].id != quests[j].id
}

/// Whether a quest of the list has the id.
pub open spec fn has_quest(quests: Seq<Quest>, id: QuestId) -> bool {
    exists|i: int| 0 <= i < quests.len() && quests[i].id == id
}

/// The quests the daemon keeps, each under its own id.
#[derive(Debug)]
pub struct QuestMaster {
    quests: Vec<Quest>,
}

impl QuestMaster {
    /// The quests, each id once.
    pub closed spec fn quests_view(&self) -> Seq<Quest> {
        self.quests@
    }

    /// The bookkeeping keeps ids apart.
    pub closed spec fn wf(&self) -> bool {
        ids_unique(self.quests@)
    }

    /// A well kept quest master holds each id once.
    pub proof fn lemma_ids_unique(&self)
        requires
            self.wf(),
        ensures
            ids_unique(self.quests_view()),
    {
    }

    /// No quests yet.
    pub fn new() -> (res: Self)
        ensures
            res.wf(),
            res.quests_view().len() == 0,
    {
        QuestMaster { quests: Vec::new() }
    }

    fn index_of(&self, id: QuestId) -> (res: Option<usize>)
        ensures
            match res {
                Some(i) => i < self.quests@.len() && self.quests@[i as int].id == id,
                None => !has_quest(self.quests@, id),
            },
    {
        let mut i: usize = 0;
        while i < self.quests.len()
            invariant
                i <= self.quests.len(),
                forall|k: int| 0 <= k < i ==> self.quests@[k].id != id,
            decreases self.quests.len() - i,
        {
            if self.quests[i].id.0 == id.0 {
                return Some(i);
            }
            i = i + 1;
        }
        None
    }

    /// The quest with the id, if any.
    pub fn query_quest(&self, quest_id: QuestId) -> (res: Option<&Quest>)
        requires
            self.wf(),
        ensures
            match res {
                Some(q) => q.id == quest_id && self.quests_view().contains(*q),
                None => !has_quest(self.quests_view(), quest_id),
            },
    {
        match self.index_of(quest_id) {
            Some(i) => Some(&self.quests[i]),
            None => None,
        }
    }

    /// The ids of all quests, in the order they are kept.
    pub fn get_quests(&self) -> (res: Vec<QuestId>)
        ensures
            res@.len() == self.quests_view().len(),
            forall|i: int| 0 <= i < res@.len() ==> res@[i] == self.quests_view()[i].id,
    {
        let mut ids: Vec<QuestId> = Vec::new();
        let mut i: usize = 0;
        while i < self.quests.len()
            invariant
                i <= self.quests.len(),
                ids@.len() == i,
                forall|k: int| 0 <= k < i ==> ids@[k] == self.quests@[k].id,
            decreases self.quests.len() - i,
        {
            ids.push(self.quests[i].id);
            i = i + 1;
        }
        ids
    }

    /// Keeps `quest` under its id, in place of a quest with the same id.
    pub fn add_quest(&mut self, quest: Quest)
        requires
            old(self).wf(),
        ensures
            final(self).wf(),
            has_quest(final(self).quests_view(), quest.id),
            forall|id: QuestId| id != quest.id ==> (has_quest(final(self).quests_view(), id)
                <==> has_quest(old(self).quests_view(), id)),
            has_quest(old(self).quests_view(), quest.id) ==> exists|i: int|
                0 <= i < old(self).quests_view().len() && old(self).quests_view()[i].id == quest.id
                    && final(self).quests_view() == old(self).quests_view().update(i, quest),
            !has_quest(old(self).quests_view(), quest.id) ==> final(self).quests_view() == old(
                self,
            ).quests_view().push(quest),
    {
        let ghost old_quests = self.quests@;
        match self.index_of(quest.id) {
            Some(i) => {
                self.quests.set(i, quest);
                assert(self.quests@[i as int].id == old_quests[i as int].id);
                assert forall|id: QuestId| id != self.quests@[i as int].id implies (has_quest(
                    self.quests@,
                    id,
                ) <==> has_quest(old_quests, id)) by {
                    if has_quest(old_quests, id) {
                        let k = choose|k: int| 0 <= k < old_quests.len() && old_quests[k].id == id;
                        assert(self.quests@[k].id == id);
                    }
                    if has_quest(self.quests@, id) {
                        let k = choose|k: int| 0 <= k < self.quests@.len() && self.quests@[k].id == id;
                        assert(old_quests[k].id == id);
                    }
                }
                assert(self.quests@[i as int].id == quest.id);
                assert(self.quests@ == old_quests.update(i as int, quest));
            },
            None => {
                let ghost id0 = quest.id;
                self.quests.push(quest);
                assert(self.quests@[old_quests.len() as int].id == id0);
                assert forall|id: QuestId| id != id0 implies (has_quest(self.quests@, id)
                    <==> has_quest(old_quests, id)) by {
                    if has_quest(old_quests, id) {
                        let k = choose|k: int| 0 <= k < old_quests.len() && old_quests[k].id == id;
                        assert(self.quests@[k].id == id);
                    }
                    if has_quest(self.quests@, id) {
                        let k = choose|k: int| 0 <= k < self.quests@.len() && self.quests@[k].id == id;
                        assert(old_quests[k].id == id);
                    }
                }
            },
        }
    }

    /// Deletes the quest with the id and hands it back, where it reached a final state.
    pub fn delete_quest(&mut self, quest_id: QuestId) -> (res: Result<Quest, DeleteQuestError>)
        requires
            old(self).wf(),
        ensures
            final(self).wf(),
            !has_quest(old(self).quests_view(), quest_id) ==> res == Err::<Quest, DeleteQuestError>(
                DeleteQuestError::Unknown,
            ) && final(self).quests_view() == old(self).quests_view(),
            has_quest(old(self).quests_view(), quest_id) ==> match res {
                Ok(q) => {
                    &&& q.id == quest_id
                    &&& finished(q.state)
                    &&& old(self).quests_view().contains(q)
                    &&& !has_quest(final(self).quests_view(), quest_id)
                    &&& final(self).quests_view().len() + 1 == old(self).quests_view().len()
                    &&& exists|i: int|
                        0 <= i < old(self).quests_view().len() && old(self).quests_view()[i] == q
                            && final(self).quests_view() == old(self).quests_view().remove(i)
                },
                Err(e) => {
                    &&& e == DeleteQuestError::StillRunning
                    &&& final(self).quests_view() == old(self).quests_view()
                    &&& exists|i: int|
                        0 <= i < old(self).quests_view().len() && old(self).quests_view()[i].id
                            == quest_id && !finished(old(self).quests_view()[i].state)
                },
            },
            forall|id: QuestId| id != quest_id ==> (has_quest(final(self).quests_view(), id)
                <==> has_quest(old(self).quests_view(), id)),
    {
        let ghost old_quests = self.quests@;
        match self.index_of(quest_id) {
            None => Err(DeleteQuestError::Unknown),
            Some(i) => {
                if self.quests[i].state.is_finished() {
                    let q = self.quests.remove(i);
                    assert forall|a: int, b: int|
                        0 <= a < self.quests@.len() && 0 <= b < self.quests@.len() && a != b
                            implies self.quests@[a].id != self.quests@[b].id by {
                        let oa = if a < i { a } else { a + 1 };
                        let ob = if b < i { b } else { b + 1 };
                        assert(self.quests@[a] == old_quests[oa]);
                        assert(self.quests@[b] == old_quests[ob]);
                    }
                    assert(!has_quest(self.quests@, quest_id)) by {
                        if has_quest(self.quests@, quest_id) {
                            let k = choose|k: int| 0 <= k < self.quests@.len() && self.quests@[k].id
                                == quest_id;
                            let ok = if k < i { k } else { k + 1 };
                            assert(self.quests@[k] == old_quests[ok]);
                        }
                    }
                    assert forall|id: QuestId| id != quest_id implies (has_quest(self.quests@, id)
                        <==> has_quest(old_quests, id)) by {
                        if has_quest(old_quests, id) {
                            let k = choose|k: int| 0 <= k < old_quests.len() && old_quests[k].id == id;
                            assert(k != i);
                            let nk = if k < i { k } else { k - 1 };
                            assert(self.quests@[nk] == old_quests[k]);
                        }
                        if has_quest(self.quests@, id) {
                            let k = choose|k: int| 0 <= k < self.quests@.len() && self.quests@[k].id == id;
                            let ok = if k < i { k } else { k + 1 };
                            assert(self.quests@[k] == old_quests[ok]);
                        }
                    }
                    assert(old_quests[i as int] == q);
                    assert(self.quests@ == old_quests.remove(i as int));
                    Ok(q)
                } else {
                    Err(DeleteQuestError::StillRunning)
                }
            },
        }
    }
}

/// The detail of a quest as its line shows it: ` (<detail>)`, or nothing.
pub open spec fn detail_text(detail: Option<String>) -> Seq<char> {
    match detail {
        Some(d) => seq![' ', '('] + d@ + seq![')'],
        None => Seq::empty(),
    }
}

/// The progress of a quest as its line shows it: ` <finished>/<all>` of its sub-quests where
/// it has some, else ` <current>/<total>` or ` <current>` of its own progress, or nothing.
pub open spec fn progress_text(q: Quest) -> Seq<char> {
    if q.sub_quests@.len() > 0 {
        seq![' '] + decimal_spec(finished_count(q.sub_quests@)) + seq!['/'] + decimal_spec(
            q.sub_quests@.len(),
        )
    } else {
        match q.progress {
            Some(p) => match p.total {
                Some(t) => seq![' '] + decimal_spec(p.current as nat) + seq!['/'] + decimal_spec(t as nat),
                None => seq![' '] + decimal_spec(p.current as nat),
            },
            None => Seq::empty(),
        }
    }
}

/// The line of a quest: the indentation, `<description>: <state>`, the detail and the
/// progress.
pub open spec fn quest_line(q: Quest, indent: Seq<char>) -> Seq<char> {
    indent + q.description@ + seq![':', ' '] + state_text(q.state) + detail_text(q.detail)
        + progress_text(q) + seq!['\n']
}

/// The lines of a quest and, indented by two more spaces, of its sub-quests, depth first.
pub open spec fn quest_text(q: Quest, indent: Seq<char>) -> Seq<char>
    decreases q, 1nat,
{
    quest_line(q, indent) + quests_text(q.sub_quests@, indent + seq![' ', ' '])
}

/// The lines of several quests, one after the other.
pub open spec fn quests_text(qs: Seq<Quest>, indent: Seq<char>) -> Seq<char>
    decreases qs, 0nat,
{
    if qs.len() == 0 {
        Seq::empty()
    } else {
        quests_text(qs.drop_last(), indent) + quest_text(qs.last(), indent)
    }
}

fn extend_chars(out: &mut Vec<char>, more: &Vec<char>)
    ensures
        final(out)@ == old(out)@ + more@,
{
    let mut i: usize = 0;
    while i < more.len()
        invariant
            i <= more@.len(),
            out@ == old(out)@ + more@.take(i as int),
        decreases more@.len() - i,
    {
        out.push(more[i]);
        assert(more@.take(i + 1) =~= more@.take(i as int).push(more@[i as int]));
        i = i + 1;
    }
    assert(more@.take(i as int) =~= more@);
}

fn line_chars(q: &Quest, indent: &Vec<char>) -> (res: Vec<char>)
    ensures
        res@ == quest_line(*q, indent@),
{
    let mut line = concat_chars(indent, &chars_of_string(&q.description));
    let mut sep: Vec<char> = Vec::new();
    sep.push(':');
    sep.push(' ');
    extend_chars(&mut line, &sep);
    extend_chars(&mut line, &chars_of_string(&q.state.to_string()));
    match &q.detail {
        Some(d) => {
            let mut open: Vec<char> = Vec::new();
            open.push(' ');
            open.push('(');
            extend_chars(&mut line, &open);
            extend_chars(&mut line, &chars_of_string(d));
            line.push(')');
        },
        None => {},
    }
    let ghost before_progress = line@;
    if q.sub_quests.len() > 0 {
        let p = q.sub_quest_progress();
        line.push(' ');
        extend_chars(&mut line, &decimal_chars(p.current));
        line.push('/');
        extend_chars(&mut line, &decimal_chars(q.sub_quests.len() as u64));
    } else {
        match q.progress {
            Some(p) => {
                line.push(' ');
                extend_chars(&mut line, &decimal_chars(p.current));
                match p.total {
                    Some(t) => {
                        line.push('/');
                        extend_chars(&mut line, &decimal_chars(t));
                    },
                    None => {},
                }
            },
            None => {},
        }
    }
    line.push('\n');
    assert(line@ =~= quest_line(*q, indent@));
    line
}

fn append_quest_text(q: &Quest, indent: &Vec<char>, out: &mut Vec<char>)
    ensures
        final(out)@ == old(out)@ + quest_text(*q, indent@),
    decreases q,
{
    let line = line_chars(q, indent);
    extend_chars(out, &line);
    let mut two: Vec<char> = Vec::new();
    two.push(' ');
    two.push(' ');
    let child_indent = concat_chars(indent, &two);
    assert(child_indent@ =~= indent@ + seq![' ', ' ']);
    let ghost start = out@;
    let mut i: usize = 0;
    assert(q.sub_quests@.take(0) =~= Seq::<Quest>::empty());
    assert(start + quests_text(Seq::<Quest>::empty(), child_indent@) =~= start);
    while i < q.sub_quests.len()
        invariant
            i <= q.sub_quests@.len(),
            out@ == start + quests_text(q.sub_quests@.take(i as int), child_indent@),
        decreases q.sub_quests@.len() - i,
    {
        proof {
            assert(decreases_to!(*q => q.sub_quests@[i as int]));
        }
        append_quest_text(&q.sub_quests[i], &child_indent, out);
        assert(q.sub_quests@.take(i + 1).drop_last() =~= q.sub_quests@.take(i as int));
        assert(q.sub_quests@.take(i + 1).last() == q.sub_quests@[i as int]);
        assert(out@ =~= start + quests_text(q.sub_quests@.take(i + 1), child_indent@));
        i = i + 1;
    }
    assert(q.sub_quests@.take(i as int) =~= q.sub_quests@);
    assert(out@ =~= old(out)@ + quest_text(*q, indent@));
}

impl Quest {
    /// The quest and its sub-quests as text: one line per quest, depth first, each sub-quest
    /// indented by two more spaces than its parent.
    pub fn fmt(&self) -> (res: String)
        ensures
            res@ == quest_text(*self, Seq::empty()),
    {
        let mut out: Vec<char> = Vec::new();
        let indent: Vec<char> = Vec::new();
        append_quest_text(self, &indent, &mut out);
        assert(out@ =~= quest_text(*self, Seq::empty()));
        string_of(&out)
    }
}

/// A quest as the daemon reports it: its fields, the text of its result, its progress
/// (for a quest with sub-quests how many of them finished) and the reports of its sub-quests.
#[derive(Debug, PartialEq, Eq)]
pub struct QuestModel {
    pub id: u64,
    pub description: String,
    pub detail: Option<String>,
    pub result: Option<String>,
    pub progress: Option<Progress>,
    pub state: State,
    pub subquests: Option<Vec<QuestModel>>,
}

/// Whether `m` reports the quest `q` and, in order, its sub-quests.
pub open spec fn model_of(m: QuestModel, q: Quest) -> bool
    decreases q, 1nat,
{
    &&& m.id == q.id.0
    &&& m.description == q.description
    &&& m.detail == q.detail
    &&& opt_view(m.result) == result_text(q.result)
    &&& m.state == q.state
    &&& if q.sub_quests@.len() > 0 {
        &&& m.progress == Some(
            Progress { current: finished_count(q.sub_quests@) as u64, total: Some(q.sub_quests@.len() as u64) },
        )
        &&& m.subquests is Some
        &&& models_of(m.subquests->0@, q.sub_quests@)
    } else {
        &&& m.progress == q.progress
        &&& m.subquests is None
    }
}

/// Whether the reports `ms` report the quests `qs`, one for one.
pub open spec fn models_of(ms: Seq<QuestModel>, qs: Seq<Quest>) -> bool
    decreases qs, 0nat,
{
    if qs.len() == 0 {
        ms.len() == 0
    } else {
        &&& ms.len() == qs.len()
        &&& models_of(ms.drop_last(), qs.drop_last())
        &&& model_of(ms.last(), qs.last())
    }
}

fn copy_text(o: &Option<String>) -> (res: Option<String>)
    ensures
        res == *o,
{
    match o {
        Some(s) => Some(s.clone()),
        None => None,
    }
}

impl Quest {
    /// The report of the quest and all its sub-quests.
    pub fn create_model(&self) -> (res: QuestModel)
        ensures
            model_of(res, *self),
        decreases self,
    {
        let (progress, subquests) = if self.sub_quests.len() > 0 {
            let p = self.sub_quest_progress();
            let mut models: Vec<QuestModel> = Vec::new();
            let mut i: usize = 0;
            while i < self.sub_quests.len()
                invariant
                    i <= self.sub_quests@.len(),
                    models@.len() == i,
                    models_of(models@, self.sub_quests@.take(i as int)),
                decreases self.sub_quests@.len() - i,
            {
                proof {
                    assert(decreases_to!(*self => self.sub_quests@[i as int]));
                }
                let m = self.sub_quests[i].create_model();
                let ghost before = models@;
                models.push(m);
                assert(models@.drop_last() =~= before);
                assert(self.sub_quests@.take(i + 1).drop_last() =~= self.sub_quests@.take(i as int));
                i = i + 1;
            }
            assert(self.sub_quests@.take(i as int) =~= self.sub_quests@);
            (Some(p), Some(models))
        } else {
            (self.progress, None)
        };
        QuestModel {
            id: self.id.0,
            description: self.description.clone(),
            detail: copy_text(&self.detail),
            result: self.result.to_model_string(),
            progress,
            state: self.state,
            subquests,
        }
    }
}

} // verus!
