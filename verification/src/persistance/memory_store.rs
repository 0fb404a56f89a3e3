//! A store that keeps its two tables in memory, with the rules of the
//! relational one: generated identifiers, insertion times, the foreign key
//! of an answer at insertion, and deletes that do not cascade.

use crate::models::postgres_error_codes::FOREIGN_KEY_VIOLATION;
use crate::persistance::database::{
    AnswerRow, AnswerRowView, Database, QuestionRow, QuestionRowView, StoreError, StoreErrorView,
};
use vstd::prelude::*;

verus! {

/// The first identifier that a store hands out: the least UUID of version 4.
pub const FIRST_IDENTIFIER: u128 = 0x0000_0000_0000_4000_8000_0000_0000_0000;

/// How many identifiers a store can hand out: the next one would no
/// longer be a UUID of version 4.
pub const IDENTIFIER_LIMIT: u64 = 0x4000_0000_0000_0000;

/// What the clock of a new store shows.
pub const EPOCH: &'static str = "1970-01-01 00:00:00";

/// The identifier that a store hands out after `issued` others.
pub open spec fn nth_identifier(issued: u64) -> u128 {
    (FIRST_IDENTIFIER + issued) as u128
}

/// The failure of an insert when no identifier is left.
pub open spec fn identifiers_exhausted() -> StoreErrorView {
    StoreErrorView { code: None, message: "no identifier is left"@ }
}

/// The failure of an insert into `answers` that names no stored question.
pub open spec fn question_missing() -> StoreErrorView {
    StoreErrorView {
        code: Some(FOREIGN_KEY_VIOLATION@),
        message: "insert on table \"answers\" violates foreign key constraint"@,
    }
}

/// Selects every question but the one with the given identifier.
pub open spec fn other_question(question_uuid: u128) -> spec_fn(QuestionRowView) -> bool {
    |row: QuestionRowView| row.question_uuid != question_uuid
}

/// Selects every answer but the one with the given identifier.
pub open spec fn other_answer(answer_uuid: u128) -> spec_fn(AnswerRowView) -> bool {
    |row: AnswerRowView| row.answer_uuid != answer_uuid
}

/// Selects the answers to the question with the given identifier.
pub open spec fn answer_to(question_uuid: u128) -> spec_fn(AnswerRowView) -> bool {
    |row: AnswerRowView| row.question_uuid == question_uuid
}

/// Some row of `questions` has the given identifier.
pub open spec fn has_question(questions: Seq<QuestionRowView>, question_uuid: u128) -> bool {
    exists|i: int| 0 <= i < questions.len() && (#[trigger] questions[i]).question_uuid == question_uuid
}

/// Some row of `answers` has the given identifier.
pub open spec fn has_answer(answers: Seq<AnswerRowView>, answer_uuid: u128) -> bool {
    exists|i: int| 0 <= i < answers.len() && (#[trigger] answers[i]).answer_uuid == answer_uuid
}

/// Some row of `answers` is an answer to the question with the given
/// identifier.
pub open spec fn has_answer_to(answers: Seq<AnswerRowView>, question_uuid: u128) -> bool {
    exists|i: int| 0 <= i < answers.len() && (#[trigger] answers[i]).question_uuid == question_uuid
}

/// The keys of the rows rise along the table, so no two rows share one.
pub open spec fn ascending<A>(rows: Seq<A>, key: spec_fn(A) -> u128) -> bool {
    forall|i: int, j: int| 0 <= i < j < rows.len() ==> key(rows[i]) < key(rows[j])
}

/// Every row of the table is sound.
pub open spec fn every<A>(rows: Seq<A>, sound: spec_fn(A) -> bool) -> bool {
    forall|i: int| 0 <= i < rows.len() ==> sound(#[trigger] rows[i])
}

/// The key of the `questions` table.
pub open spec fn question_key() -> spec_fn(QuestionRowView) -> u128 {
    |row: QuestionRowView| row.question_uuid
}

/// The key of the `answers` table.
pub open spec fn answer_key() -> spec_fn(AnswerRowView) -> u128 {
    |row: AnswerRowView| row.answer_uuid
}

/// A row as a store leaves it that has handed out `issued` identifiers:
/// it bears one of them, and the time of its insertion.
pub open spec fn stamped(issued: u64, identifier: u128, created_at: Seq<char>) -> bool {
    FIRST_IDENTIFIER <= identifier < nth_identifier(issued) && created_at.len() > 0
}

/// Selects the questions that a store with `issued` identifiers can hold.
pub open spec fn sound_question(issued: u64) -> spec_fn(QuestionRowView) -> bool {
    |row: QuestionRowView| stamped(issued, row.question_uuid, row.created_at)
}

/// Selects the answers that a store with `issued` identifiers can hold.
pub open spec fn sound_answer(issued: u64) -> spec_fn(AnswerRowView) -> bool {
    |row: AnswerRowView| stamped(issued, row.answer_uuid, row.created_at)
}

/// The version of a UUID is 4 and its variant is the one of RFC 4122.
pub open spec fn is_version_4(identifier: u128) -> bool {
    (identifier >> 76) & 0xf == 4 && (identifier >> 62) & 0x3 == 2
}

/// A relational store held in memory: the two tables in the order in which
/// their rows came, the count of identifiers handed out, and a clock that
/// is set from outside.
pub struct MemoryStore {
    questions: Vec<QuestionRow>,
    answers: Vec<AnswerRow>,
    issued: u64,
    clock: String,
}

pub struct MemoryView {
    pub questions: Seq<QuestionRowView>,
    pub answers: Seq<AnswerRowView>,
    pub issued: u64,
    pub clock: Seq<char>,
}

impl MemoryView {
    /// What holds of every store: its clock shows a time, each row bears
    /// an identifier that the store handed out and the time of its
    /// insertion, and within a table no identifier occurs twice.
    pub open spec fn wf(self) -> bool {
        &&& self.issued <= IDENTIFIER_LIMIT
        &&& self.clock.len() > 0
        &&& every(self.questions, sound_question(self.issued))
        &&& every(self.answers, sound_answer(self.issued))
        &&& ascending(self.questions, question_key())
        &&& ascending(self.answers, answer_key())
    }
}

impl View for MemoryStore {
    type V = MemoryView;

    closed spec fn view(&self) -> MemoryView {
        MemoryView {
            questions: self.questions.deep_view(),
            answers: self.answers.deep_view(),
            issued: self.issued,
            clock: self.clock@,
        }
    }
}

fn copy_question(row: &QuestionRow) -> (copy: QuestionRow)
    ensures
        copy@ == row@,
{
    QuestionRow {
        question_uuid: row.question_uuid,
        title: row.title.clone(),
        description: row.description.clone(),
        created_at: row.created_at.clone(),
    }
}

fn copy_answer(row: &AnswerRow) -> (copy: AnswerRow)
    ensures
        copy@ == row@,
{
    AnswerRow {
        answer_uuid: row.answer_uuid,
        question_uuid: row.question_uuid,
        content: row.content.clone(),
        created_at: row.created_at.clone(),
    }
}

fn copy_questions(rows: &Vec<QuestionRow>) -> (copies: Vec<QuestionRow>)
    ensures
        copies.deep_view() == rows.deep_view(),
{
    let mut copies: Vec<QuestionRow> = Vec::new();
    let mut i: usize = 0;
    while i < rows.len()
        invariant
            i <= rows.len(),
            copies.len() == i,
            forall|k: int| 0 <= k < i ==> (#[trigger] copies[k])@ == rows[k]@,
        decreases rows.len() - i,
    {
        copies.push(copy_question(&rows[i]));
        i = i + 1;
    }
    assert(copies.deep_view() =~= rows.deep_view());
    copies
}

fn questions_except(rows: &Vec<QuestionRow>, question_uuid: u128) -> (kept: Vec<QuestionRow>)
    ensures
        kept.deep_view() == rows.deep_view().filter(other_question(question_uuid)),
        kept.len() <= rows.len(),
{
    let ghost all = rows.deep_view();
    let ghost wanted = other_question(question_uuid);
    let mut kept: Vec<QuestionRow> = Vec::new();
    let mut i: usize = 0;
    proof {
        reveal(Seq::filter);
        assert(all.take(0).filter(wanted) =~= kept.deep_view());
    }
    while i < rows.len()
        invariant
            i <= rows.len(),
            all == rows.deep_view(),
            wanted == other_question(question_uuid),
            kept.deep_view() == all.take(i as int).filter(wanted),
            kept.len() <= i,
        decreases rows.len() - i,
    {
        let ghost before = kept.deep_view();
        if rows[i].question_uuid != question_uuid {
            kept.push(copy_question(&rows[i]));
        }
        proof {
            reveal(Seq::filter);
            assert(all.take(i + 1).drop_last() =~= all.take(i as int));
            assert(all.take(i + 1).last() == rows[i as int]@);
            assert(wanted(rows[i as int]@) == (rows[i as int].question_uuid != question_uuid));
            if wanted(rows[i as int]@) {
                assert(kept.deep_view() =~= before.push(rows[i as int]@));
            } else {
                assert(kept.deep_view() =~= before);
            }
        }
        i = i + 1;
    }
    assert(all.take(rows.len() as int) =~= all);
    kept
}

fn answers_where(rows: &Vec<AnswerRow>, identifier: u128, to_question: bool) -> (kept: Vec<
    AnswerRow,
>)
    ensures
        kept.deep_view() == rows.deep_view().filter(
            if to_question {
                answer_to(identifier)
            } else {
                other_answer(identifier)
            },
        ),
        kept.len() <= rows.len(),
{
    let ghost all = rows.deep_view();
    let ghost wanted = if to_question {
        answer_to(identifier)
    } else {
        other_answer(identifier)
    };
    let mut kept: Vec<AnswerRow> = Vec::new();
    let mut i: usize = 0;
    proof {
        reveal(Seq::filter);
        assert(all.take(0).filter(wanted) =~= kept.deep_view());
    }
    while i < rows.len()
        invariant
            i <= rows.len(),
            all == rows.deep_view(),
            wanted == if to_question {
                answer_to(identifier)
            } else {
                other_answer(identifier)
            },
            kept.deep_view() == all.take(i as int).filter(wanted),
            kept.len() <= i,
        decreases rows.len() - i,
    {
        let ghost before = kept.deep_view();
        let keep = if to_question {
            rows[i].question_uuid == identifier
        } else {
            rows[i].answer_uuid != identifier
        };
        if keep {
            kept.push(copy_answer(&rows[i]));
        }
        proof {
            reveal(Seq::filter);
            assert(all.take(i + 1).drop_last() =~= all.take(i as int));
            assert(all.take(i + 1).last() == rows[i as int]@);
            assert(wanted(rows[i as int]@) == keep);
            if keep {
                assert(kept.deep_view() =~= before.push(rows[i as int]@));
            } else {
                assert(kept.deep_view() =~= before);
            }
        }
        i = i + 1;
    }
    assert(all.take(rows.len() as int) =~= all);
    kept
}

fn holds_question(rows: &Vec<QuestionRow>, question_uuid: u128) -> (found: bool)
    ensures
        found == has_question(rows.deep_view(), question_uuid),
{
    let mut i: usize = 0;
    while i < rows.len()
        invariant
            i <= rows.len(),
            forall|k: int| 0 <= k < i ==> (#[trigger] rows.deep_view()[k]).question_uuid != question_uuid,
        decreases rows.len() - i,
    {
        if rows[i].question_uuid == question_uuid {
            assert(rows.deep_view()[i as int].question_uuid == question_uuid);
            return true;
        }
        i = i + 1;
    }
    false
}

impl MemoryStore {
    /// An empty store whose clock shows the epoch.
    pub fn new() -> (store: Self)
        ensures
            store@.questions.len() == 0,
            store@.answers.len() == 0,
            store@.issued == 0,
            store@.clock == EPOCH@,
            store@.wf(),
    {
        proof {
            reveal_strlit("1970-01-01 00:00:00");
        }
        MemoryStore {
            questions: Vec::new(),
            answers: Vec::new(),
            issued: 0,
            clock: EPOCH.to_owned(),
        }
    }

    /// Sets the clock, whose text is stamped on every row that comes after.
    /// An empty text is no time: it is refused, and the clock stays.
    pub fn set_clock(&mut self, now: String) -> (set: bool)
        ensures
            set == (now@.len() > 0),
            set ==> final(self)@ == (MemoryView { clock: now@, ..old(self)@ }),
            !set ==> *final(self) == *old(self),
            old(self)@.wf() ==> final(self)@.wf(),
    {
        if now.as_str().is_empty() {
            return false;
        }
        self.clock = now;
        true
    }
}

impl Database for MemoryStore {
    /// The row gets the next identifier and the clock's time and goes to
    /// the end of the table; with no identifier left the insert fails.
    open spec fn inserts_question(
        pre: Self,
        title: Seq<char>,
        description: Seq<char>,
        post: Self,
        outcome: Result<QuestionRowView, StoreErrorView>,
    ) -> bool {
        if pre@.issued < IDENTIFIER_LIMIT {
            let row = QuestionRowView {
                question_uuid: nth_identifier(pre@.issued),
                title,
                description,
                created_at: pre@.clock,
            };
            &&& post@ == MemoryView {
                questions: pre@.questions.push(row),
                issued: (pre@.issued + 1) as u64,
                ..pre@
            }
            &&& outcome == Ok::<QuestionRowView, StoreErrorView>(row)
        } else {
            &&& post == pre
            &&& outcome == Err::<QuestionRowView, StoreErrorView>(identifiers_exhausted())
        }
    }

    /// Every question, in the order of the table.
    open spec fn selects_questions(
        store: Self,
        outcome: Result<Seq<QuestionRowView>, StoreErrorView>,
    ) -> bool {
        outcome == Ok::<Seq<QuestionRowView>, StoreErrorView>(store@.questions)
    }

    /// The rows with that identifier go, the others stay as they are. The
    /// answers stay too, whichever question they name.
    open spec fn deletes_question(
        pre: Self,
        question_uuid: u128,
        post: Self,
        outcome: Result<u64, StoreErrorView>,
    ) -> bool {
        let kept = pre@.questions.filter(other_question(question_uuid));
        &&& post@ == MemoryView { questions: kept, ..pre@ }
        &&& outcome == Ok::<u64, StoreErrorView>((pre@.questions.len() - kept.len()) as u64)
    }

    /// An answer to a question that is not stored breaks the foreign key.
    /// Any other gets the next identifier and the clock's time and goes to
    /// the end of the table; with no identifier left the insert fails.
    open spec fn inserts_answer(
        pre: Self,
        question_uuid: u128,
        content: Seq<char>,
        post: Self,
        outcome: Result<AnswerRowView, StoreErrorView>,
    ) -> bool {
        if !has_question(pre@.questions, question_uuid) {
            &&& post == pre
            &&& outcome == Err::<AnswerRowView, StoreErrorView>(question_missing())
        } else if pre@.issued < IDENTIFIER_LIMIT {
            let row = AnswerRowView {
                answer_uuid: nth_identifier(pre@.issued),
                question_uuid,
                content,
                created_at: pre@.clock,
            };
            &&& post@ == MemoryView {
                answers: pre@.answers.push(row),
                issued: (pre@.issued + 1) as u64,
                ..pre@
            }
            &&& outcome == Ok::<AnswerRowView, StoreErrorView>(row)
        } else {
            &&& post == pre
            &&& outcome == Err::<AnswerRowView, StoreErrorView>(identifiers_exhausted())
        }
    }

    /// The answers to that question, in the order of the table.
    open spec fn selects_answers(
        store: Self,
        question_uuid: u128,
        outcome: Result<Seq<AnswerRowView>, StoreErrorView>,
    ) -> bool {
        outcome == Ok::<Seq<AnswerRowView>, StoreErrorView>(
            store@.answers.filter(answer_to(question_uuid)),
        )
    }

    /// The rows with that identifier go, the others stay as they are.
    open spec fn deletes_answer(
        pre: Self,
        answer_uuid: u128,
        post: Self,
        outcome: Result<u64, StoreErrorView>,
    ) -> bool {
        let kept = pre@.answers.filter(other_answer(answer_uuid));
        &&& post@ == MemoryView { answers: kept, ..pre@ }
        &&& outcome == Ok::<u64, StoreErrorView>((pre@.answers.len() - kept.len()) as u64)
    }

    fn insert_question(&mut self, title: String, description: String) -> (outcome: Result<
        QuestionRow,
        StoreError,
    >)
        ensures
            old(self)@.wf() ==> final(self)@.wf(),
    {
        if self.issued >= IDENTIFIER_LIMIT {
            return Err(StoreError { code: None, message: "no identifier is left".to_owned() });
        }
        let row = QuestionRow {
            question_uuid: FIRST_IDENTIFIER + self.issued as u128,
            title,
            description,
            created_at: self.clock.clone(),
        };
        let copy = copy_question(&row);
        self.questions.push(row);
        self.issued = self.issued + 1;
        assert(self.questions.deep_view() =~= old(self).questions.deep_view().push(copy@));
        proof {
            if old(self)@.wf() {
                theorem_insert_question_keeps_store_sound(
                    *old(self),
                    copy@.title,
                    copy@.description,
                    *self,
                    Ok(copy@),
                );
            }
        }
        Ok(copy)
    }

    fn select_questions(&self) -> (outcome: Result<Vec<QuestionRow>, StoreError>) {
        Ok(copy_questions(&self.questions))
    }

    fn delete_question(&mut self, question_uuid: u128) -> (outcome: Result<u64, StoreError>)
        ensures
            old(self)@.wf() ==> final(self)@.wf(),
    {
        let kept = questions_except(&self.questions, question_uuid);
        let gone = self.questions.len() - kept.len();
        self.questions = kept;
        proof {
            if old(self)@.wf() {
                theorem_delete_question_keeps_store_sound(
                    *old(self),
                    question_uuid,
                    *self,
                    Ok(gone as u64),
                );
            }
        }
        Ok(gone as u64)
    }

    fn insert_answer(&mut self, question_uuid: u128, content: String) -> (outcome: Result<
        AnswerRow,
        StoreError,
    >)
        ensures
            old(self)@.wf() ==> final(self)@.wf(),
    {
        if !holds_question(&self.questions, question_uuid) {
            return Err(
                StoreError {
                    code: Some(FOREIGN_KEY_VIOLATION.to_owned()),
                    message: "insert on table \"answers\" violates foreign key constraint".to_owned(),
                },
            );
        }
        if self.issued >= IDENTIFIER_LIMIT {
            return Err(StoreError { code: None, message: "no identifier is left".to_owned() });
        }
        let row = AnswerRow {
            answer_uuid: FIRST_IDENTIFIER + self.issued as u128,
            question_uuid,
            content,
            created_at: self.clock.clone(),
        };
        let copy = copy_answer(&row);
        self.answers.push(row);
        self.issued = self.issued + 1;
        assert(self.answers.deep_view() =~= old(self).answers.deep_view().push(copy@));
        proof {
            if old(self)@.wf() {
                theorem_insert_answer_keeps_store_sound(
                    *old(self),
                    question_uuid,
                    copy@.content,
                    *self,
                    Ok(copy@),
                );
            }
        }
        Ok(copy)
    }

    fn select_answers(&self, question_uuid: u128) -> (outcome: Result<Vec<AnswerRow>, StoreError>) {
        Ok(answers_where(&self.answers, question_uuid, true))
    }

    fn delete_answer(&mut self, answer_uuid: u128) -> (outcome: Result<u64, StoreError>)
        ensures
            old(self)@.wf() ==> final(self)@.wf(),
    {
        let kept = answers_where(&self.answers, answer_uuid, false);
        let gone = self.answers.len() - kept.len();
        self.answers = kept;
        proof {
            if old(self)@.wf() {
                theorem_delete_answer_keeps_store_sound(
                    *old(self),
                    answer_uuid,
                    *self,
                    Ok(gone as u64),
                );
            }
        }
        Ok(gone as u64)
    }
}

/// What passes a filter was in the table, so whatever held of every row
/// still does.
pub proof fn lemma_filter_keeps_every<A>(
    rows: Seq<A>,
    wanted: spec_fn(A) -> bool,
    sound: spec_fn(A) -> bool,
)
    requires
        every(rows, sound),
    ensures
        every(rows.filter(wanted), sound),
    decreases rows.len(),
{
    reveal(Seq::filter);
    if rows.len() > 0 {
        lemma_filter_keeps_every(rows.drop_last(), wanted, sound);
    }
}

/// What passes a filter is wanted.
pub proof fn lemma_filter_passes_the_wanted<A>(rows: Seq<A>, wanted: spec_fn(A) -> bool)
    ensures
        every(rows.filter(wanted), wanted),
    decreases rows.len(),
{
    reveal(Seq::filter);
    if rows.len() > 0 {
        lemma_filter_passes_the_wanted(rows.drop_last(), wanted);
    }
}

/// What passes a filter was in the table.
pub proof fn lemma_filter_is_part<A>(rows: Seq<A>, wanted: spec_fn(A) -> bool)
    ensures
        forall|j: int|
            0 <= j < rows.filter(wanted).len() ==> rows.contains(#[trigger] rows.filter(wanted)[j]),
    decreases rows.len(),
{
    reveal(Seq::filter);
    if rows.len() > 0 {
        let rest = rows.drop_last();
        lemma_filter_is_part(rest, wanted);
        assert forall|j: int| 0 <= j < rows.filter(wanted).len() implies rows.contains(
            #[trigger] rows.filter(wanted)[j],
        ) by {
            if j < rest.filter(wanted).len() {
                let i = choose|i: int| 0 <= i < rest.len() && rest[i] == rest.filter(wanted)[j];
                assert(rows[i] == rows.filter(wanted)[j]);
            } else {
                assert(rows[rows.len() - 1] == rows.filter(wanted)[j]);
            }
        }
    }
}

/// A row that passes goes through a filter with the table it is added to.
pub proof fn lemma_filter_passes_new_row<A>(rows: Seq<A>, row: A, wanted: spec_fn(A) -> bool)
    requires
        wanted(row),
    ensures
        rows.push(row).filter(wanted) == rows.filter(wanted).push(row),
{
    reveal(Seq::filter);
    assert(rows.push(row).drop_last() =~= rows);
}

/// What passes a filter keeps its order, so rising keys still rise.
pub proof fn lemma_filter_keeps_ascending<A>(
    rows: Seq<A>,
    wanted: spec_fn(A) -> bool,
    key: spec_fn(A) -> u128,
)
    requires
        ascending(rows, key),
    ensures
        ascending(rows.filter(wanted), key),
    decreases rows.len(),
{
    reveal(Seq::filter);
    if rows.len() > 0 {
        let last = rows.last();
        let below = |row: A| key(row) < key(last);
        lemma_filter_keeps_ascending(rows.drop_last(), wanted, key);
        assert(every(rows.drop_last(), below)) by {
            assert forall|i: int| 0 <= i < rows.drop_last().len() implies below(
                #[trigger] rows.drop_last()[i],
            ) by {
                assert(key(rows[i]) < key(rows[rows.len() - 1]));
            }
        }
        lemma_filter_keeps_every(rows.drop_last(), wanted, below);
    }
}

/// A filter that every row passes leaves the table as it is.
pub proof fn lemma_filter_keeps_all<A>(rows: Seq<A>, wanted: spec_fn(A) -> bool)
    requires
        every(rows, wanted),
    ensures
        rows.filter(wanted) == rows,
    decreases rows.len(),
{
    reveal(Seq::filter);
    if rows.len() > 0 {
        lemma_filter_keeps_all(rows.drop_last(), wanted);
        assert(rows.drop_last().push(rows.last()) =~= rows);
    }
}

/// A filter that no row passes leaves nothing.
pub proof fn lemma_filter_keeps_none<A>(rows: Seq<A>, wanted: spec_fn(A) -> bool)
    requires
        forall|i: int| 0 <= i < rows.len() ==> !wanted(#[trigger] rows[i]),
    ensures
        rows.filter(wanted).len() == 0,
    decreases rows.len(),
{
    reveal(Seq::filter);
    if rows.len() > 0 {
        lemma_filter_keeps_none(rows.drop_last(), wanted);
    }
}

/// Every identifier that a store hands out is a UUID of version 4.
pub proof fn theorem_identifiers_are_version_4(issued: u64)
    requires
        issued < IDENTIFIER_LIMIT,
    ensures
        is_version_4(nth_identifier(issued)),
{
    let identifier: u128 = nth_identifier(issued);
    let count: u128 = issued as u128;
    assert(identifier == 0x0000_0000_0000_4000_8000_0000_0000_0000u128 + count);
    assert(count < 0x4000_0000_0000_0000u128 && identifier
        == 0x0000_0000_0000_4000_8000_0000_0000_0000u128 + count ==> (identifier >> 76) & 0xf == 4
        && (identifier >> 62) & 0x3 == 2) by (bit_vector);
}

/// An insert into `questions` leaves a sound store sound.
pub proof fn theorem_insert_question_keeps_store_sound(
    pre: MemoryStore,
    title: Seq<char>,
    description: Seq<char>,
    post: MemoryStore,
    outcome: Result<QuestionRowView, StoreErrorView>,
)
    requires
        pre@.wf(),
        MemoryStore::inserts_question(pre, title, description, post, outcome),
    ensures
        post@.wf(),
        outcome matches Ok(row) ==> is_version_4(row.question_uuid),
{
    if pre@.issued < IDENTIFIER_LIMIT {
        theorem_identifiers_are_version_4(pre@.issued);
    }
}

/// A delete from `questions` leaves a sound store sound. The question is
/// gone, no other row is touched, and the answers stay: also those to the
/// question that went.
pub proof fn theorem_delete_question_keeps_store_sound(
    pre: MemoryStore,
    question_uuid: u128,
    post: MemoryStore,
    outcome: Result<u64, StoreErrorView>,
)
    requires
        pre@.wf(),
        MemoryStore::deletes_question(pre, question_uuid, post, outcome),
    ensures
        post@.wf(),
        !has_question(post@.questions, question_uuid),
        forall|j: int|
            0 <= j < post@.questions.len() ==> pre@.questions.contains(#[trigger] post@.questions[j]),
        post@.answers == pre@.answers,
{
    let wanted = other_question(question_uuid);
    lemma_filter_keeps_every(pre@.questions, wanted, sound_question(pre@.issued));
    lemma_filter_keeps_ascending(pre@.questions, wanted, question_key());
    lemma_filter_passes_the_wanted(pre@.questions, wanted);
    lemma_filter_is_part(pre@.questions, wanted);
}

/// An insert into `answers` leaves a sound store sound.
pub proof fn theorem_insert_answer_keeps_store_sound(
    pre: MemoryStore,
    question_uuid: u128,
    content: Seq<char>,
    post: MemoryStore,
    outcome: Result<AnswerRowView, StoreErrorView>,
)
    requires
        pre@.wf(),
        MemoryStore::inserts_answer(pre, question_uuid, content, post, outcome),
    ensures
        post@.wf(),
        outcome matches Ok(row) ==> is_version_4(row.answer_uuid) && has_question(
            pre@.questions,
            row.question_uuid,
        ),
{
    if pre@.issued < IDENTIFIER_LIMIT {
        theorem_identifiers_are_version_4(pre@.issued);
    }
}

/// A delete from `answers` leaves a sound store sound. The answer is gone,
/// and no other row is touched.
pub proof fn theorem_delete_answer_keeps_store_sound(
    pre: MemoryStore,
    answer_uuid: u128,
    post: MemoryStore,
    outcome: Result<u64, StoreErrorView>,
)
    requires
        pre@.wf(),
        MemoryStore::deletes_answer(pre, answer_uuid, post, outcome),
    ensures
        post@.wf(),
        !has_answer(post@.answers, answer_uuid),
        forall|j: int|
            0 <= j < post@.answers.len() ==> pre@.answers.contains(#[trigger] post@.answers[j]),
        post@.questions == pre@.questions,
{
    let wanted = other_answer(answer_uuid);
    lemma_filter_keeps_every(pre@.answers, wanted, sound_answer(pre@.issued));
    lemma_filter_keeps_ascending(pre@.answers, wanted, answer_key());
    lemma_filter_passes_the_wanted(pre@.answers, wanted);
    lemma_filter_is_part(pre@.answers, wanted);
}

} // verus!
