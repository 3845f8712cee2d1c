use gid::batch::AddAction;
use gid::batch::AddBatch;
use gid::batch::AddEvent;
use gid::batch::AddState;
use gid::batch::FinishAction;
use gid::batch::FinishBatch;
use gid::batch::FinishEvent;
use gid::batch::FinishState;
use gid::batch::RemoveAction;
use gid::batch::RemoveBatch;
use gid::batch::RemoveEvent;
use gid::batch::RemoveState;
use gid::batch::finish_payload;
use gid::model::Error;
use gid::model::Item;
use gid::model::Task;

fn it(id: &str, title: &str) -> Item {
    Item { id: id.to_string(), title: title.to_string() }
}

fn milk_and_clean() -> Vec<Item> {
    vec![it("a", "Buy milk"), it("b", "Clean")]
}

fn delete_id(action: &RemoveAction) -> &str {
    match action {
        RemoveAction::Delete(id) => id.as_str(),
        RemoveAction::Stop => panic!("expected a delete, batch stopped"),
    }
}

#[test]
fn remove_batch_resolves_all_tokens_then_deletes_in_input_order() {
    let tokens = vec!["1".to_string(), "Buy milk".to_string()];
    let batch = RemoveBatch::new(tokens);
    // before the enumeration arrives the batch is still resolving:
    // no delete has been issued
    assert!(matches!(batch.state, RemoveState::Resolving));

    // one fetch, then both tokens resolve against that snapshot:
    // "1" to "b" by index, "Buy milk" to "a" by title; only then is
    // the first delete issued
    let (batch, action) = batch.step(RemoveEvent::Enumeration(milk_and_clean()));
    assert_eq!(delete_id(&action), "b");

    let (batch, action) = batch.step(RemoveEvent::DeleteOk);
    assert_eq!(delete_id(&action), "a");

    let (batch, action) = batch.step(RemoveEvent::DeleteOk);
    assert!(matches!(action, RemoveAction::Stop));
    assert!(matches!(batch.state, RemoveState::Done));
}

#[test]
fn remove_batch_fails_fast_when_any_token_has_no_match() {
    let tokens = vec!["Buy milk".to_string(), "nope".to_string(), "Clean".to_string()];
    let batch = RemoveBatch::new(tokens);
    let (batch, action) = batch.step(RemoveEvent::Enumeration(milk_and_clean()));
    // the second of three tokens has no match: the whole batch aborts
    // before any delete is issued, even for the tokens that resolved
    assert!(matches!(action, RemoveAction::Stop));
    match batch.state {
        RemoveState::Failed(Error::IdentifierNotFound { ref token }) => {
            assert_eq!(token.as_str(), "nope");
        },
        ref other => panic!("expected identifier-not-found, got {:?}", other),
    }
}

#[test]
fn remove_batch_stops_at_the_first_delete_failure_without_rollback() {
    let items = vec![it("a", "one"), it("b", "two"), it("c", "three")];
    let tokens = vec!["0".to_string(), "1".to_string(), "2".to_string()];
    let batch = RemoveBatch::new(tokens);
    let (batch, action) = batch.step(RemoveEvent::Enumeration(items));
    assert_eq!(delete_id(&action), "a");
    // the first delete succeeded and stays in place
    let (batch, action) = batch.step(RemoveEvent::DeleteOk);
    assert_eq!(delete_id(&action), "b");
    // the second delete fails: the batch stops at once, issuing no
    // compensation for "a" and never attempting "c"
    let (batch, action) = batch.step(RemoveEvent::Failure(Error::NotFound));
    assert!(matches!(action, RemoveAction::Stop));
    assert!(matches!(batch.state, RemoveState::Failed(Error::NotFound)));
}

#[test]
fn remove_batch_with_no_tokens_is_done_after_the_fetch() {
    let batch = RemoveBatch::new(Vec::new());
    let (batch, action) = batch.step(RemoveEvent::Enumeration(milk_and_clean()));
    assert!(matches!(action, RemoveAction::Stop));
    assert!(matches!(batch.state, RemoveState::Done));
}

#[test]
fn remove_batch_surfaces_a_fetch_failure() {
    let batch = RemoveBatch::new(vec!["0".to_string()]);
    let (batch, action) = batch.step(RemoveEvent::Failure(Error::Transport("boom".to_string())));
    assert!(matches!(action, RemoveAction::Stop));
    assert!(matches!(batch.state, RemoveState::Failed(Error::Transport(_))));
}

#[test]
fn finish_batch_fetches_mutates_and_patches_the_captured_identifier() {
    let batch = FinishBatch::new(vec!["0".to_string()]);
    let (batch, action) = batch.step(FinishEvent::Enumeration(milk_and_clean()));
    // token "0" resolved to "a": fetch that task
    match action {
        FinishAction::Get(ref id) => assert_eq!(id.as_str(), "a"),
        ref other => panic!("expected a get, got {:?}", other),
    }
    let fetched = Task {
        id: "a".to_string(),
        title: "Buy milk".to_string(),
        completed: None,
        hidden: None,
    };
    let (batch, action) = batch.step(FinishEvent::Fetched(fetched));
    match action {
        FinishAction::Patch { ref id, ref task } => {
            assert_eq!(id.as_str(), "a");
            assert_eq!(task.id.as_str(), "a");
            assert_eq!(task.title.as_str(), "Buy milk");
            assert_eq!(task.hidden, Some(true));
            let stamp = task.completed.as_ref().expect("completion timestamp set");
            assert!(!stamp.is_empty());
        },
        _ => panic!("expected a patch"),
    }
    let (batch, action) = batch.step(FinishEvent::PatchOk);
    assert!(matches!(action, FinishAction::Stop));
    assert!(matches!(batch.state, FinishState::Done));
}

#[test]
fn finish_batch_patches_the_resolved_id_even_if_the_fetch_raced() {
    let batch = FinishBatch::new(vec!["0".to_string()]);
    let (batch, _) = batch.step(FinishEvent::Enumeration(milk_and_clean()));
    // the remote service answered the get with another identifier:
    // the patch still targets the identifier captured at resolution
    let fetched = Task {
        id: "zzz".to_string(),
        title: "Buy milk".to_string(),
        completed: None,
        hidden: None,
    };
    let (_batch, action) = batch.step(FinishEvent::Fetched(fetched));
    match action {
        FinishAction::Patch { ref id, ref task } => {
            assert_eq!(id.as_str(), "a");
            assert_eq!(task.id.as_str(), "a");
        },
        _ => panic!("expected a patch"),
    }
}

#[test]
fn finish_batch_fails_fast_when_any_token_has_no_match() {
    let tokens = vec!["Clean".to_string(), "17".to_string()];
    let batch = FinishBatch::new(tokens);
    let (batch, action) = batch.step(FinishEvent::Enumeration(milk_and_clean()));
    assert!(matches!(action, FinishAction::Stop));
    match batch.state {
        FinishState::Failed(Error::IdentifierNotFound { ref token }) => {
            assert_eq!(token.as_str(), "17");
        },
        _ => panic!("expected identifier-not-found"),
    }
}

#[test]
fn finish_batch_walks_every_resolved_task_in_input_order() {
    let batch = FinishBatch::new(vec!["Clean".to_string(), "0".to_string()]);
    let (batch, action) = batch.step(FinishEvent::Enumeration(milk_and_clean()));
    assert!(matches!(action, FinishAction::Get(ref id) if id.as_str() == "b"));
    let fetched_b = Task {
        id: "b".to_string(),
        title: "Clean".to_string(),
        completed: None,
        hidden: None,
    };
    let (batch, action) = batch.step(FinishEvent::Fetched(fetched_b));
    assert!(matches!(action, FinishAction::Patch { ref id, .. } if id.as_str() == "b"));
    let (batch, action) = batch.step(FinishEvent::PatchOk);
    assert!(matches!(action, FinishAction::Get(ref id) if id.as_str() == "a"));
    let fetched_a = Task {
        id: "a".to_string(),
        title: "Buy milk".to_string(),
        completed: None,
        hidden: None,
    };
    let (batch, action) = batch.step(FinishEvent::Fetched(fetched_a));
    assert!(matches!(action, FinishAction::Patch { ref id, .. } if id.as_str() == "a"));
    let (batch, action) = batch.step(FinishEvent::PatchOk);
    assert!(matches!(action, FinishAction::Stop));
    assert!(matches!(batch.state, FinishState::Done));
}

#[test]
fn finish_batch_stops_at_the_first_patch_failure() {
    let batch = FinishBatch::new(vec!["0".to_string(), "1".to_string()]);
    let (batch, _) = batch.step(FinishEvent::Enumeration(milk_and_clean()));
    let fetched = Task {
        id: "a".to_string(),
        title: "Buy milk".to_string(),
        completed: None,
        hidden: None,
    };
    let (batch, _) = batch.step(FinishEvent::Fetched(fetched));
    let (batch, action) = batch.step(FinishEvent::Failure(Error::NotFound));
    assert!(matches!(action, FinishAction::Stop));
    assert!(matches!(batch.state, FinishState::Failed(Error::NotFound)));
}

#[test]
fn finish_payload_sets_completion_and_keeps_identity() {
    let fetched = Task {
        id: "whatever".to_string(),
        title: "Buy milk".to_string(),
        completed: None,
        hidden: Some(false),
    };
    let t = finish_payload(&"a".to_string(), &fetched, "2024-01-02T03:04:05+00:00".to_string());
    assert_eq!(t.id.as_str(), "a");
    assert_eq!(t.title.as_str(), "Buy milk");
    assert_eq!(t.completed, Some("2024-01-02T03:04:05+00:00".to_string()));
    assert_eq!(t.hidden, Some(true));
}

#[test]
fn add_batch_inserts_every_title_in_input_order() {
    let (batch, action) = AddBatch::new(vec!["x".to_string(), "y".to_string()]);
    assert!(matches!(action, AddAction::Insert(ref t) if t.as_str() == "x"));
    let (batch, action) = batch.step(AddEvent::InsertOk);
    assert!(matches!(action, AddAction::Insert(ref t) if t.as_str() == "y"));
    let (batch, action) = batch.step(AddEvent::InsertOk);
    assert!(matches!(action, AddAction::Stop));
    assert!(matches!(batch.state, AddState::Done));
}

#[test]
fn add_batch_with_no_titles_has_nothing_to_do() {
    let (batch, action) = AddBatch::new(Vec::new());
    assert!(matches!(action, AddAction::Stop));
    assert!(matches!(batch.state, AddState::Done));
}

#[test]
fn add_batch_stops_at_the_first_insert_failure() {
    let (batch, _) = AddBatch::new(vec!["x".to_string(), "y".to_string()]);
    let (batch, action) = batch.step(AddEvent::Failure(Error::Remote {
        status: 500,
        message: "server error".to_string(),
    }));
    assert!(matches!(action, AddAction::Stop));
    assert!(matches!(batch.state, AddState::Failed(Error::Remote { status: 500, .. })));
}
