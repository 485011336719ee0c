use sandbox_core::auth::{AuthTokenSetterInterceptor, Metadata, check_credential};
use sandbox_core::protocol::{
    CreateTaskRequest, DispatchError, GetTaskToRunRequest, ImageGenerationParams,
    MlSandboxServiceHandler, TaskParams,
    TaskStatusUpdate, UpdateTaskStatusRequest, generate_output_data_key,
};
use sandbox_core::task::TaskStatus;

fn worker_metadata(token: &str) -> Metadata {
    let interceptor = AuthTokenSetterInterceptor::new(token.to_owned());
    let mut metadata = Metadata::new();
    interceptor.call(&mut metadata);
    metadata
}

#[test]
fn interceptor_attaches_credential() {
    let metadata = worker_metadata("worker-secret");
    assert!(check_credential(&metadata, &"worker-secret".to_owned()));
    assert!(!check_credential(&metadata, &"other".to_owned()));
}

#[test]
fn interceptor_overrides_earlier_entry() {
    let mut metadata = Metadata::new();
    metadata.insert("x-access-token".to_owned(), "stale".to_owned());
    let interceptor = AuthTokenSetterInterceptor::new("fresh".to_owned());
    interceptor.call(&mut metadata);
    assert!(check_credential(&metadata, &"fresh".to_owned()));
    assert!(!check_credential(&metadata, &"stale".to_owned()));
}

#[test]
fn missing_credential_is_rejected_before_any_mutation() {
    let mut handler = MlSandboxServiceHandler::new("secret".to_owned());
    let id = handler.generate_image("a cat".to_owned());
    let empty = Metadata::new();
    assert_eq!(handler.get_task_to_run(&empty, GetTaskToRunRequest {}), Err(DispatchError::Unauthenticated));
    let update = UpdateTaskStatusRequest {
        id,
        task_status: TaskStatusUpdate::InProgress { current_step: 1, total_steps: 2 },
    };
    assert_eq!(handler.update_task_status(&empty, update), Err(DispatchError::Unauthenticated));
    // The rejected calls must not have touched the store: the task is
    // still new and still claimable.
    assert!(matches!(handler.get_task(id).unwrap().status, TaskStatus::New));
    let metadata = worker_metadata("secret");
    let claimed = handler.get_task_to_run(&metadata, GetTaskToRunRequest {}).unwrap().unwrap();
    assert_eq!(claimed.id, id);
}

#[test]
fn wrong_credential_is_rejected() {
    let mut handler = MlSandboxServiceHandler::new("secret".to_owned());
    handler.generate_image("a cat".to_owned());
    let metadata = worker_metadata("guess");
    assert_eq!(handler.get_task_to_run(&metadata, GetTaskToRunRequest {}), Err(DispatchError::Unauthenticated));
}

#[test]
fn create_task_accepts_image_generation_params() {
    let mut handler = MlSandboxServiceHandler::new("secret".to_owned());
    let request = CreateTaskRequest {
        params: TaskParams::ImageGeneration(ImageGenerationParams {
            prompt: "cute cat".to_owned(),
            iterations: 20,
            number_of_images: 1,
        }),
    };
    let id = handler.create_task(request, Some("alice".to_owned()));
    let task = handler.get_task(id).unwrap();
    assert_eq!(task.prompt, "cute cat");
    assert_eq!(task.owner.as_deref(), Some("alice"));
    assert!(matches!(task.status, TaskStatus::New));
    let owned = handler.list_tasks_for_owner(&"alice".to_owned());
    assert_eq!(owned.len(), 1);
    assert_eq!(owned[0].id, id);
}

#[test]
fn get_task_unknown_is_not_found() {
    let handler = MlSandboxServiceHandler::new("secret".to_owned());
    assert_eq!(handler.get_task(3).map(|t| t.id), Err(DispatchError::NotFound));
}

#[test]
fn empty_poll_returns_none_through_the_protocol() {
    let mut handler = MlSandboxServiceHandler::new("secret".to_owned());
    let metadata = worker_metadata("secret");
    assert_eq!(handler.get_task_to_run(&metadata, GetTaskToRunRequest {}).map(|t| t.is_none()), Ok(true));
}

#[test]
fn update_task_status_maps_store_errors() {
    let mut handler = MlSandboxServiceHandler::new("secret".to_owned());
    let metadata = worker_metadata("secret");
    let missing = UpdateTaskStatusRequest {
        id: 9,
        task_status: TaskStatusUpdate::InProgress { current_step: 0, total_steps: 0 },
    };
    assert_eq!(handler.update_task_status(&metadata, missing), Err(DispatchError::NotFound));
    let id = handler.generate_image("p".to_owned());
    let finish = UpdateTaskStatusRequest {
        id,
        task_status: TaskStatusUpdate::Finished { image: vec![1] },
    };
    assert_eq!(handler.update_task_status(&metadata, finish), Ok(()));
    let late = UpdateTaskStatusRequest {
        id,
        task_status: TaskStatusUpdate::InProgress { current_step: 1, total_steps: 1 },
    };
    assert_eq!(handler.update_task_status(&metadata, late), Err(DispatchError::InvalidTransition));
}

#[test]
fn end_to_end_scenario() {
    let mut handler = MlSandboxServiceHandler::new("secret".to_owned());
    let id = handler.generate_image("sunset over mountains".to_owned());
    let metadata = worker_metadata("secret");

    let claimed = handler.get_task_to_run(&metadata, GetTaskToRunRequest {}).unwrap().unwrap();
    assert_eq!(claimed.id, id);
    assert_eq!(claimed.prompt, "sunset over mountains");

    let progress_a = UpdateTaskStatusRequest {
        id,
        task_status: TaskStatusUpdate::InProgress { current_step: 5, total_steps: 20 },
    };
    assert_eq!(handler.update_task_status(&metadata, progress_a), Ok(()));
    let progress_b = UpdateTaskStatusRequest {
        id,
        task_status: TaskStatusUpdate::InProgress { current_step: 20, total_steps: 20 },
    };
    assert_eq!(handler.update_task_status(&metadata, progress_b), Ok(()));

    let image = vec![0x89, 0x50, 0x4e, 0x47];
    let finished = UpdateTaskStatusRequest {
        id,
        task_status: TaskStatusUpdate::Finished { image: image.clone() },
    };
    assert_eq!(handler.update_task_status(&metadata, finished), Ok(()));

    match handler.get_task(id).unwrap().status {
        TaskStatus::Finished { result } => assert_eq!(result, image),
        _ => panic!("expected finished status"),
    }
}

#[test]
fn output_data_key_is_fourteen_alphanumerics() {
    let key = generate_output_data_key();
    assert_eq!(key.chars().count(), 14);
    assert!(key.chars().all(|c| c.is_ascii_alphanumeric()));
    // Two draws almost surely differ; equal draws would suggest the key
    // is not random at all.
    let other = generate_output_data_key();
    assert_eq!(other.chars().count(), 14);
}

#[test]
fn test_healthcheck() {
    // The health route ("/healthz" on the HTTP surface) answers with a
    // plain "ok" body.
    assert_eq!(sandbox_core::protocol::healthz(), "ok");
    assert_eq!(sandbox_core::protocol::root(), "sandbox");
}

#[test]
fn default_params_are_one_image_of_twenty_iterations() {
    let params = ImageGenerationParams::default();
    assert_eq!(params.prompt, "");
    assert_eq!(params.iterations, 20);
    assert_eq!(params.number_of_images, 1);
}
