//! What a request that changes the library hands back: the reply, the unit
//! of work for the store, and the steps for the blob collaborator.
//!
//! The store is the source of truth. Folders are created and blobs stored
//! before the unit of work is committed, so that no row refers to a blob
//! that was never written; blobs and folders are removed after it, as far
//! as that succeeds.

use vstd::prelude::*;

use crate::error::{AppError, AppErrorView};
use crate::models::views;
use crate::schema::{effect_of_all, Library, Statement, StatementView};

verus! {

/// One step for the blob collaborator.
#[derive(Debug, PartialEq, Eq)]
pub enum BlobStep {
    /// Make sure that the folder exists, before the unit of work.
    CreateFolder(String),
    /// Store the uploaded bytes at the path, before the unit of work.
    Store(String),
    /// Remove the blob at the path, after the unit of work.
    Remove(String),
    /// Remove the folder and what is left in it, after the unit of work.
    RemoveFolder(String),
}

/// The mathematical value of a [`BlobStep`].
pub enum BlobStepView {
    CreateFolder(Seq<char>),
    Store(Seq<char>),
    Remove(Seq<char>),
    RemoveFolder(Seq<char>),
}

impl View for BlobStep {
    type V = BlobStepView;

    open spec fn view(&self) -> BlobStepView {
        match self {
            BlobStep::CreateFolder(p) => BlobStepView::CreateFolder(p@),
            BlobStep::Store(p) => BlobStepView::Store(p@),
            BlobStep::Remove(p) => BlobStepView::Remove(p@),
            BlobStep::RemoveFolder(p) => BlobStepView::RemoveFolder(p@),
        }
    }
}

/// Whether the step comes before the unit of work: folders are created and
/// blobs stored first, and a failure there stops the request. Every other
/// step comes after the unit of work is committed and is carried out as far
/// as it succeeds: its failure changes nothing about the request.
pub open spec fn before_commit(step: BlobStepView) -> bool {
    step is CreateFolder || step is Store
}

/// Whether the step comes before the unit of work is committed.
pub fn runs_before_commit(step: &BlobStep) -> (b: bool)
    ensures
        b == before_commit(step@),
        b == (step is CreateFolder || step is Store),
{
    match step {
        BlobStep::CreateFolder(_) | BlobStep::Store(_) => true,
        BlobStep::Remove(_) | BlobStep::RemoveFolder(_) => false,
    }
}

/// A reply together with the changes that stand behind it.
#[derive(Debug, PartialEq, Eq)]
pub struct Change<T> {
    /// What the caller is told.
    pub reply: T,
    /// The statements to commit, all or none.
    pub unit: Vec<Statement>,
    /// The steps for the blob collaborator, in order.
    pub blobs: Vec<BlobStep>,
}

/// The mathematical value of a [`Change`].
pub struct ChangeView<V> {
    pub reply: V,
    pub unit: Seq<StatementView>,
    pub blobs: Seq<BlobStepView>,
}

impl<T: View> View for Change<T> {
    type V = ChangeView<T::V>;

    open spec fn view(&self) -> ChangeView<T::V> {
        ChangeView { reply: self.reply@, unit: views(self.unit@), blobs: views(self.blobs@) }
    }
}

/// The result is the expected one: the same failure, or a value with the
/// expected view.
pub open spec fn answers<T: View>(r: Result<T, AppError>, expected: Result<T::V, AppErrorView>) -> bool {
    match r {
        Ok(value) => expected == Ok::<T::V, AppErrorView>(value@),
        Err(e) => expected == Err::<T::V, AppErrorView>(e@),
    }
}

/// The result is the expected one: the same failure, or rows with the
/// expected views in the expected order.
pub open spec fn lists<T: View>(r: Result<Vec<T>, AppError>, expected: Result<
    Seq<T::V>,
    AppErrorView,
>) -> bool {
    match r {
        Ok(rows) => expected == Ok::<Seq<T::V>, AppErrorView>(views(rows@)),
        Err(e) => expected == Err::<Seq<T::V>, AppErrorView>(e@),
    }
}

/// The unit of work of a change breaks no constraint of the library it was
/// planned for.
pub open spec fn commits<T>(v: Library, r: Result<Change<T>, AppError>) -> bool {
    r matches Ok(change) ==> effect_of_all(v, views(change.unit@)) is Some
}

/// A change that consists of one statement.
pub fn single<T>(reply: T, statement: Statement) -> (change: Change<T>)
    ensures
        change.reply == reply,
        views(change.unit@) == seq![statement@],
        change.blobs@.len() == 0,
{
    let mut unit: Vec<Statement> = Vec::new();
    unit.push(statement);
    proof {
        assert(views(unit@) =~= seq![statement@]);
    }
    Change { reply, unit, blobs: Vec::new() }
}

} // verus!
