use gltf_engine::framework::{TodoListContextImpl, UndoableViewContext, ViewContext};
use gltf_engine::todo_list::{TodoItem, TodoListCommand, TodoListModel};
use gltf_engine::undo_manager::UndoManager;

fn item(id: u128, title: &str, completed: bool) -> TodoItem {
    TodoItem { id, title: title.to_string(), completed }
}

fn two_items() -> TodoListModel {
    TodoListModel::from_items(vec![item(1, "one", false), item(2, "two", true)])
}

fn titles(model: &TodoListModel) -> Vec<(u128, String, bool)> {
    let mut all: Vec<(u128, String, bool)> = model
        .items
        .iter()
        .map(|(key, item)| {
            assert_eq!(*key, item.id);
            (item.id, item.title.clone(), item.completed)
        })
        .collect();
    all.sort();
    all
}

fn is_delete(command: &TodoListCommand, expected: u128) -> bool {
    matches!(command, TodoListCommand::DeleteTodoItem { id } if *id == expected)
}

#[test]
fn items_are_filed_by_identity() {
    let model = TodoListModel::from_items(vec![
        item(1, "one", false),
        item(2, "two", true),
        item(1, "uno", true),
    ]);
    assert_eq!(
        titles(&model),
        vec![(1, "uno".to_string(), true), (2, "two".to_string(), true)]
    );
    assert!(model.item_order.is_empty());
}

#[test]
fn default_list_has_three_items() {
    let model = TodoListModel::default();
    let mut found: Vec<(String, bool)> =
        model.items.values().map(|i| (i.title.clone(), i.completed)).collect();
    found.sort();
    assert_eq!(
        found,
        vec![
            ("egui Basics".to_string(), true),
            ("egui Complex Application".to_string(), false),
            ("egui Intermediate".to_string(), false),
        ]
    );
    for (key, item) in model.items.iter() {
        assert_eq!(*key, item.id);
    }
}

#[test]
fn create_gives_back_a_delete() {
    let mut model = two_items();
    let create =
        TodoListCommand::CreateTodoItem { id: Some(3), title: "three".to_string(), completed: false };
    let undo = model.process_command_with(create, 99).unwrap();
    assert!(is_delete(&undo, 3));
    assert_eq!(titles(&model).len(), 3);
    let redo = model.process_command_with(undo, 99).unwrap();
    assert_eq!(titles(&model), titles(&two_items()));
    assert!(matches!(
        redo,
        TodoListCommand::CreateTodoItem { id: Some(3), ref title, completed: false } if title == "three"
    ));
}

#[test]
fn create_without_identity_takes_the_fresh_one() {
    let mut model = two_items();
    let create = TodoListCommand::CreateTodoItem { id: None, title: "new".to_string(), completed: true };
    let undo = model.process_command_with(create, 99).unwrap();
    assert!(is_delete(&undo, 99));
    assert_eq!(model.items[&99].title, "new");
    assert!(model.items[&99].completed);
}

#[test]
fn create_without_identity_draws_one() {
    let mut model = two_items();
    let create = TodoListCommand::CreateTodoItem { id: None, title: "new".to_string(), completed: true };
    let undo = model.process_command(create).unwrap();
    assert_eq!(model.items.len(), 3);
    let id = match undo {
        TodoListCommand::DeleteTodoItem { id } => id,
        _ => panic!("a creation is undone by a deletion"),
    };
    assert_eq!(model.items[&id].title, "new");
    assert_eq!(uuid::Uuid::from_u128(id).get_version_num(), 4);
}

#[test]
fn completion_gives_back_the_opposite() {
    let mut model = two_items();
    let undo = model
        .process_command_with(TodoListCommand::UpdateCompletedOfTodoItem { id: 1, completed: true }, 0)
        .unwrap();
    assert!(model.items[&1].completed);
    assert!(matches!(
        undo,
        TodoListCommand::UpdateCompletedOfTodoItem { id: 1, completed: false }
    ));
    model.process_command_with(undo, 0).unwrap();
    assert_eq!(titles(&model), titles(&two_items()));
}

#[test]
fn title_gives_back_the_old_title() {
    let mut model = two_items();
    let undo = model
        .process_command_with(
            TodoListCommand::UpdateTitleOfTodoItem { id: 2, title: "zwei".to_string() },
            0,
        )
        .unwrap();
    assert_eq!(model.items[&2].title, "zwei");
    assert!(model.items[&2].completed);
    assert!(matches!(
        undo,
        TodoListCommand::UpdateTitleOfTodoItem { id: 2, ref title } if title == "two"
    ));
}

#[test]
fn delete_gives_back_the_item() {
    let mut model = two_items();
    let undo = model.process_command_with(TodoListCommand::DeleteTodoItem { id: 2 }, 0).unwrap();
    assert_eq!(titles(&model), vec![(1, "one".to_string(), false)]);
    assert!(matches!(
        undo,
        TodoListCommand::CreateTodoItem { id: Some(2), ref title, completed: true } if title == "two"
    ));
    model.process_command_with(undo, 0).unwrap();
    assert_eq!(titles(&model), titles(&two_items()));
}

#[test]
fn commands_for_unknown_items_change_nothing() {
    for command in [
        TodoListCommand::UpdateCompletedOfTodoItem { id: 7, completed: true },
        TodoListCommand::UpdateTitleOfTodoItem { id: 7, title: "x".to_string() },
        TodoListCommand::DeleteTodoItem { id: 7 },
    ] {
        let mut model = two_items();
        assert!(model.process_command_with(command, 7).is_none());
        assert_eq!(titles(&model), titles(&two_items()));
    }
}

#[test]
fn undo_and_redo_walk_the_history() {
    let mut model = two_items();
    let mut manager = UndoManager::new();
    assert!(!manager.can_undo());
    assert!(!manager.can_redo());
    manager.undo(&mut model);
    manager.redo(&mut model);
    assert_eq!(titles(&model), titles(&two_items()));

    let rename = TodoListCommand::UpdateTitleOfTodoItem { id: 1, title: "eins".to_string() };
    manager.push_undo(model.process_command(rename).unwrap());
    manager.push_undo(model.process_command(TodoListCommand::DeleteTodoItem { id: 2 }).unwrap());
    assert_eq!(titles(&model), vec![(1, "eins".to_string(), false)]);
    assert!(manager.can_undo());
    assert!(!manager.can_redo());

    manager.undo(&mut model);
    assert_eq!(
        titles(&model),
        vec![(1, "eins".to_string(), false), (2, "two".to_string(), true)]
    );
    assert!(manager.can_redo());
    manager.undo(&mut model);
    assert_eq!(titles(&model), titles(&two_items()));
    assert!(!manager.can_undo());

    manager.redo(&mut model);
    manager.redo(&mut model);
    assert_eq!(titles(&model), vec![(1, "eins".to_string(), false)]);
    assert!(!manager.can_redo());
    assert_eq!(manager.undo_stack.len(), 2);
}

#[test]
fn new_command_clears_what_could_be_redone() {
    let mut model = two_items();
    let mut manager = UndoManager::new();
    manager.push_undo(model.process_command(TodoListCommand::DeleteTodoItem { id: 2 }).unwrap());
    manager.undo(&mut model);
    assert!(manager.can_redo());
    manager.push_undo(model.process_command(TodoListCommand::DeleteTodoItem { id: 1 }).unwrap());
    assert!(!manager.can_redo());
    assert!(manager.can_undo());
}

#[test]
fn undone_command_without_its_item_is_dropped() {
    let mut model = two_items();
    let mut manager = UndoManager::new();
    manager.push_undo(TodoListCommand::DeleteTodoItem { id: 7 });
    manager.undo(&mut model);
    assert!(!manager.can_undo());
    assert!(!manager.can_redo());
    assert_eq!(titles(&model), titles(&two_items()));
}

#[test]
fn context_gathers_commands_and_requests() {
    let model = two_items();
    let mut manager = UndoManager::new();
    manager.push_undo(TodoListCommand::DeleteTodoItem { id: 1 });
    let mut context = TodoListContextImpl::new(&model, &manager);
    assert_eq!(context.model().items.len(), 2);
    assert!(context.can_undo());
    assert!(!context.can_redo());
    assert!(!context.undo_requested());
    assert!(!context.redo_requested());
    assert!(!context.exit_requested());
    context.push_command(TodoListCommand::DeleteTodoItem { id: 2 });
    context.request_undo();
    assert!(context.undo_requested() && !context.redo_requested());
    context.request_redo();
    context.request_exit();
    assert!(context.redo_requested() && context.exit_requested());
    assert_eq!(context.model_commands.len(), 1);
    assert!(is_delete(&context.model_commands[0], 2));
}
