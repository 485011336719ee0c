//! The dispatch protocol: the message types shared by producers, the store
//! and workers, and the service handler that answers them.
//!
//! Producer-facing calls create and read tasks. Worker-facing calls claim
//! work and report status, and every one of them must carry the worker
//! credential; a call without it is rejected before the store is touched.

use vstd::prelude::*;
use crate::auth::{Metadata, carries_credential, check_credential};
use crate::store::{
    TaskStore, StoreError, spec_new_task, claim_spec, progress_spec, finish_spec, has_new_task,
};
use crate::task::{Task, task_matches};

use rand::distributions::Distribution;

verus! {

/// Parameters of an image-generation task.
pub struct ImageGenerationParams {
    pub prompt: String,
    /// Number of model iterations per image.
    pub iterations: u32,
    pub number_of_images: u32,
}

impl Default for ImageGenerationParams {
    /// The parameters a request starts from: an empty prompt, twenty
    /// iterations, one image.
    fn default() -> (r: Self)
        ensures
            r.prompt@ == Seq::<char>::empty(),
            r.iterations == 20,
            r.number_of_images == 1,
    {
        ImageGenerationParams { prompt: String::new(), iterations: 20, number_of_images: 1 }
    }
}

/// The tagged parameter union a creation request carries.
pub enum TaskParams {
    ImageGeneration(ImageGenerationParams),
}

impl TaskParams {
    /// The free-form prompt of the request.
    pub open spec fn spec_prompt(self) -> String {
        match self {
            TaskParams::ImageGeneration(p) => p.prompt,
        }
    }
}

pub struct CreateTaskRequest {
    pub params: TaskParams,
}

pub struct GetTaskToRunRequest {}

/// The status change a worker reports for a task.
pub enum TaskStatusUpdate {
    InProgress { current_step: u32, total_steps: u32 },
    Finished { image: Vec<u8> },
}

pub struct UpdateTaskStatusRequest {
    pub id: u64,
    pub task_status: TaskStatusUpdate,
}

/// Errors returned to callers of the dispatch surface.
#[derive(Clone, Copy, Debug, PartialEq, Eq, Structural)]
pub enum DispatchError {
    /// The call carried no valid worker credential.
    Unauthenticated,
    /// No task with the given identifier exists.
    NotFound,
    /// The reported status violates the task state machine.
    InvalidTransition,
    /// The store failed.
    Internal,
}

/// How store errors surface to dispatch callers.
pub open spec fn lift_store_result(r: Result<(), StoreError>) -> Result<(), DispatchError> {
    match r {
        Ok(()) => Ok(()),
        Err(StoreError::Storage) => Err(DispatchError::Internal),
        Err(StoreError::NotFound) => Err(DispatchError::NotFound),
        Err(StoreError::InvalidTransition) => Err(DispatchError::InvalidTransition),
    }
}

/// The dispatch service: the task store behind the producer- and
/// worker-facing calls, and the credential expected from workers.
pub struct MlSandboxServiceHandler {
    store: TaskStore,
    worker_token: String,
}

impl MlSandboxServiceHandler {
    /// The stored tasks.
    pub closed spec fn store_view(&self) -> Seq<Task> {
        self.store@
    }

    /// The credential workers must present.
    pub closed spec fn spec_token(&self) -> Seq<char> {
        self.worker_token@
    }

    pub open spec fn wf(&self) -> bool {
        crate::store::wf_tasks(self.store_view())
    }

    /// A request whose metadata carries the expected worker credential.
    pub open spec fn authorized(&self, metadata: Metadata) -> bool {
        carries_credential(metadata.entries@, self.spec_token())
    }

    /// A handler over an empty store.
    pub fn new(worker_token: String) -> (r: Self)
        ensures
            r.wf(),
            r.store_view() == Seq::<Task>::empty(),
            r.spec_token() == worker_token@,
    {
        MlSandboxServiceHandler { store: TaskStore::new(), worker_token }
    }

    /// Producer-facing: stores a new task for the prompt in the request
    /// and returns its identifier.
    pub fn create_task(&mut self, request: CreateTaskRequest, owner: Option<String>) -> (id: u64)
        requires
            old(self).wf(),
        ensures
            final(self).wf(),
            final(self).spec_token() == old(self).spec_token(),
            id == old(self).store_view().len() as u64,
            final(self).store_view() == old(self).store_view().push(
                spec_new_task(id, owner, request.params.spec_prompt()),
            ),
    {
        let TaskParams::ImageGeneration(params) = request.params;
        self.store.create_task(owner, params.prompt)
    }

    /// Producer-facing, for anonymous legacy callers: stores a new task
    /// for a bare prompt.
    pub fn generate_image(&mut self, prompt: String) -> (id: u64)
        requires
            old(self).wf(),
        ensures
            final(self).wf(),
            final(self).spec_token() == old(self).spec_token(),
            id == old(self).store_view().len() as u64,
            final(self).store_view() == old(self).store_view().push(
                spec_new_task(id, None, prompt),
            ),
    {
        self.store.create_task(None, prompt)
    }

    /// Producer-facing: looks a task up by identifier.
    pub fn get_task(&self, id: u64) -> (r: Result<Task, DispatchError>)
        ensures
            r is Ok <==> (id as int) < self.store_view().len(),
            r is Ok ==> task_matches(r->Ok_0, self.store_view()[id as int]),
            r is Err ==> r->Err_0 == DispatchError::NotFound,
    {
        match self.store.get_task(id) {
            Ok(task) => Ok(task),
            Err(_) => Err(DispatchError::NotFound),
        }
    }

    /// Worker-facing: claims the oldest `New` task for the calling worker.
    /// Without the credential the call fails and the store is untouched;
    /// with it, the claim is one atomic step of the store.
    pub fn get_task_to_run(&mut self, metadata: &Metadata, _request: GetTaskToRunRequest) -> (r: Result<
        Option<Task>,
        DispatchError,
    >)
        requires
            old(self).wf(),
        ensures
            final(self).wf(),
            final(self).spec_token() == old(self).spec_token(),
            !old(self).authorized(*metadata) ==> r == Result::<Option<Task>, DispatchError>::Err(
                DispatchError::Unauthenticated,
            ) && final(self).store_view() == old(self).store_view(),
            old(self).authorized(*metadata) ==> r is Ok && claim_spec(
                old(self).store_view(),
                final(self).store_view(),
                r->Ok_0,
            ) && (r->Ok_0 is None <==> !has_new_task(old(self).store_view())),
    {
        if !check_credential(metadata, &self.worker_token) {
            return Err(DispatchError::Unauthenticated);
        }
        Ok(self.store.claim_next_task())
    }

    /// Worker-facing: applies a reported status change. Without the
    /// credential the call fails and the store is untouched; with it, the
    /// update is applied exactly as the store's progress and terminal
    /// steps prescribe, with store errors surfaced as dispatch errors.
    pub fn update_task_status(&mut self, metadata: &Metadata, request: UpdateTaskStatusRequest) -> (
    r: Result<(), DispatchError>)
        requires
            old(self).wf(),
        ensures
            final(self).wf(),
            final(self).spec_token() == old(self).spec_token(),
            !old(self).authorized(*metadata) ==> r == Result::<(), DispatchError>::Err(
                DispatchError::Unauthenticated,
            ) && final(self).store_view() == old(self).store_view(),
            old(self).authorized(*metadata) ==> match request.task_status {
                TaskStatusUpdate::InProgress { current_step, total_steps } => exists|
                    sr: Result<(), StoreError>,
                |
                    progress_spec(
                        old(self).store_view(),
                        final(self).store_view(),
                        request.id,
                        current_step,
                        total_steps,
                        sr,
                    ) && r == lift_store_result(sr),
                TaskStatusUpdate::Finished { image } => exists|sr: Result<(), StoreError>|
                    finish_spec(
                        old(self).store_view(),
                        final(self).store_view(),
                        request.id,
                        image,
                        sr,
                    ) && r == lift_store_result(sr),
            },
    {
        if !check_credential(metadata, &self.worker_token) {
            return Err(DispatchError::Unauthenticated);
        }
        match request.task_status {
            TaskStatusUpdate::InProgress { current_step, total_steps } => {
                let sr = self.store.report_progress(request.id, current_step, total_steps);
                let out = match sr {
                    Ok(()) => Ok(()),
                    Err(StoreError::Storage) => Err(DispatchError::Internal),
                    Err(StoreError::NotFound) => Err(DispatchError::NotFound),
                    Err(StoreError::InvalidTransition) => Err(DispatchError::InvalidTransition),
                };
                proof {
                    assert(out == lift_store_result(sr));
                    assert(exists|srr: Result<(), StoreError>|
                        progress_spec(
                            old(self).store_view(),
                            self.store_view(),
                            request.id,
                            current_step,
                            total_steps,
                            srr,
                        ) && out == lift_store_result(srr)) by {
                        assert(progress_spec(
                            old(self).store_view(),
                            self.store_view(),
                            request.id,
                            current_step,
                            total_steps,
                            sr,
                        ) && out == lift_store_result(sr));
                    }
                }
                out
            },
            TaskStatusUpdate::Finished { image } => {
                let ghost image_snapshot = image;
                let sr = self.store.report_finished(request.id, image);
                let out = match sr {
                    Ok(()) => Ok(()),
                    Err(StoreError::Storage) => Err(DispatchError::Internal),
                    Err(StoreError::NotFound) => Err(DispatchError::NotFound),
                    Err(StoreError::InvalidTransition) => Err(DispatchError::InvalidTransition),
                };
                proof {
                    assert(out == lift_store_result(sr));
                    assert(exists|srr: Result<(), StoreError>|
                        finish_spec(
                            old(self).store_view(),
                            self.store_view(),
                            request.id,
                            image_snapshot,
                            srr,
                        ) && out == lift_store_result(srr)) by {
                        assert(finish_spec(
                            old(self).store_view(),
                            self.store_view(),
                            request.id,
                            image_snapshot,
                            sr,
                        ) && out == lift_store_result(sr));
                    }
                }
                out
            },
        }
    }

    /// Producer-facing: the tasks of one owner, oldest first.
    pub fn list_tasks_for_owner(&self, owner: &String) -> (r: Vec<Task>)
        ensures
            r@.len() == crate::store::owned_tasks(self.store_view(), owner@).len(),
            forall|i: int|
                0 <= i < r@.len() ==> task_matches(
                    #[trigger] r@[i],
                    crate::store::owned_tasks(self.store_view(), owner@)[i],
                ),
    {
        self.store.list_tasks_for_owner(owner)
    }
}

/// The body of the service's index route.
pub fn root() -> (r: &'static str)
    ensures
        r@ == "sandbox"@,
{
    "sandbox"
}

/// The body of the service's health route: always healthy once serving.
pub fn healthz() -> (r: &'static str)
    ensures
        r@ == "ok"@,
{
    "ok"
}

/// An ASCII letter or digit.
pub open spec fn is_ascii_alphanumeric_char(c: char) -> bool {
    ('a' <= c && c <= 'z') || ('A' <= c && c <= 'Z') || ('0' <= c && c <= '9')
}

/// Relies on rand's `Alphanumeric` distribution: every sampled value is
/// one of the ASCII characters `A-Z`, `a-z` or `0-9`.
#[verifier::external_body]
fn sample_alphanumeric(len: usize) -> (r: String)
    ensures
        r@.len() == len as nat,
        forall|i: int| 0 <= i < r@.len() ==> is_ascii_alphanumeric_char(#[trigger] r@[i]),
{
    let mut rng = rand::thread_rng();
    rand::distributions::Alphanumeric.sample_iter(&mut rng).take(len).map(char::from).collect()
}

/// A fresh random key under which a task's output payload is stored:
/// fourteen ASCII letters or digits.
pub fn generate_output_data_key() -> (r: String)
    ensures
        r@.len() == 14,
        forall|i: int| 0 <= i < r@.len() ==> is_ascii_alphanumeric_char(#[trigger] r@[i]),
{
    sample_alphanumeric(14)
}

} // verus!
