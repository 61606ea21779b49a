use std::collections::HashMap;

use covey::id::CommandId;
use covey::field_model::{struct_model, DefaultValue, FieldCheck, FieldDefault};
use covey::manifest::{command_ext_methods, default_commands, schema_type_from_str, SchemaInt, SchemaMap, SchemaStruct, SchemaType};
use covey::plugin::{
    Action, DeserializationError, Icon, Input, List, ListItem, ListStyle, ManifestDeserialization, Menu,
    SelectionRange, VisitId,
};
use covey::proto::{self, PluginAction, RequestId, ResponseBody};
use covey::store::{AutoIncrementer, CommandMap, TargetCallbacks};

type Callback = u32;

#[test]
fn expanded_types_exist() {
    // The settings a manifest declares: a map of URL entries, each with a
    // name, a url and an extra integer field whose default is 10.
    let url_fields = || {
        vec![
            ("name".to_string(), schema_type_from_str("text").unwrap()),
            ("url".to_string(), schema_type_from_str("text").unwrap()),
            (
                "extra-field".to_string(),
                SchemaType::Int(SchemaInt { default: Some(10), ..SchemaInt::default() }),
            ),
        ]
    };
    let fields: HashMap<String, SchemaType> = url_fields().into_iter().collect();
    let urls = SchemaType::StringMap(SchemaMap {
        value_type: Box::new(SchemaType::Struct(SchemaStruct { fields })),
        min_items: 0,
    });

    // the configuration struct with its `urls` field
    let config = struct_model("config", &vec![("urls".to_string(), urls)]);
    assert_eq!(config.name, "r#Config");
    assert_eq!(config.fields.len(), 1);
    let field = &config.fields[0];
    assert_eq!(field.ident, "r#urls");
    assert_eq!(
        field.type_path.to_text(),
        "::std::collections::HashMap<::std::string::String, self::r#urls::r#UrlsValue>"
    );
    assert!(matches!(field.default, FieldDefault::DefaultTrait));
    assert!(matches!(&field.check, FieldCheck::Values(0, inner) if matches!(**inner, FieldCheck::Unchecked)));

    // the struct of each entry: `key` maps to one of these
    let value = struct_model("urls_value", &url_fields());
    assert_eq!(value.name, "r#UrlsValue");
    let idents: Vec<&str> = value.fields.iter().map(|f| f.ident.as_str()).collect();
    assert_eq!(idents, vec!["r#name", "r#url", "r#extra_field"]);
    assert!(matches!(value.fields[0].default, FieldDefault::Required));
    assert!(matches!(value.fields[0].check, FieldCheck::Length(0, u32::MAX)));
    assert!(matches!(value.fields[2].default, FieldDefault::Custom(DefaultValue::Int(10))));
    assert!(matches!(value.fields[2].check, FieldCheck::IntRange(i32::MIN, i32::MAX)));
    assert_eq!(value.fields[2].type_path.to_text(), "::core::primitive::i32");

    // the extension trait: `on_activate` sets the callback of `activate`
    let methods = command_ext_methods(&default_commands());
    assert_eq!(methods[0], ("on_activate".to_string(), "activate".to_string()));
    let item: ListItem<Callback> = ListItem::new("ajwroiajw".to_string()).add_command(&methods[0].1, 1);
    assert_eq!(item.title, "ajwroiajw");
    assert_eq!(item.callbacks.get_callback(&CommandId::new("activate")), Some(&1));
}

#[test]
fn list_item_defaults_and_builders() {
    let item: ListItem<Callback> = ListItem::new("Title".to_string());
    assert_eq!(item.title, "Title");
    assert_eq!(item.description, "");
    assert!(item.icon.is_none());
    assert_eq!(item.visit_id(), &VisitId("Title".to_string()));
    let item = item
        .with_description("desc".to_string())
        .with_icon_name("folder".to_string())
        .with_visit_id(VisitId("v".to_string()));
    assert_eq!(item.description, "desc");
    assert!(matches!(&item.icon, Some(Icon::Name(n)) if n == "folder"));
    assert_eq!(item.visit_id.0, "v");
    let item = item.with_icon_text("T".to_string());
    assert!(matches!(&item.icon, Some(Icon::Text(t)) if t == "T"));
    let item = item.with_icon(None);
    assert!(item.icon.is_none());
}

#[test]
fn list_styles() {
    let l: List<Callback> = List::new(vec![]);
    assert!(l.style.is_none());
    assert_eq!(List::<Callback>::new(vec![]).as_grid().style, Some(ListStyle::Grid));
    assert_eq!(List::<Callback>::new(vec![]).as_rows().style, Some(ListStyle::Rows));
    assert_eq!(
        List::<Callback>::new(vec![]).as_grid_with_columns(3).style,
        Some(ListStyle::GridWithColumns(3))
    );
}

#[test]
fn target_callbacks_replace_by_name() {
    let mut t: TargetCallbacks<Callback> = TargetCallbacks::new();
    t.add_callback(CommandId::new("a"), 1);
    t.add_callback(CommandId::new("b"), 2);
    t.add_callback(CommandId::new("a"), 3);
    assert_eq!(t.get_callback(&CommandId::new("a")), Some(&3));
    assert_eq!(t.get_callback(&CommandId::new("b")), Some(&2));
    assert!(t.get_callback(&CommandId::new("c")).is_none());
    let names: Vec<String> = t.ids().iter().map(|c| c.name().to_string()).collect();
    assert_eq!(names, vec!["a", "b"]);
}

#[test]
fn auto_incrementer_hands_out_ranges() {
    let mut ids = AutoIncrementer(5);
    assert_eq!(ids.fetch_many(3), 5..8);
    assert_eq!(ids.0, 8);
    assert_eq!(ids.fetch_many(0), 8..8);
}

fn sample_list() -> List<Callback> {
    let a = ListItem::new("a".to_string()).add_command("activate", 1);
    let b = ListItem::new("b".to_string())
        .with_icon_text("B".to_string())
        .add_command("activate", 2)
        .add_command("alt", 3);
    List::new(vec![a, b]).as_rows().add_command("refresh", 3)
}

#[test]
fn store_assigns_consecutive_targets() {
    let mut map: CommandMap<Callback> = CommandMap::new();
    assert_eq!(map.stored_lists(), 0);
    let (sent, has_older) = map.store_query_result(sample_list());
    assert!(!has_older);
    assert_eq!(sent.id, proto::ActivationTarget(0));
    assert_eq!(sent.items.len(), 2);
    assert_eq!(sent.items[0].id, proto::ActivationTarget(1));
    assert_eq!(sent.items[1].id, proto::ActivationTarget(2));
    assert_eq!(sent.items[0].title, "a");
    assert!(matches!(&sent.items[1].icon, Some(proto::ListItemIcon::Text(t)) if t == "B"));
    assert_eq!(sent.style, Some(proto::ListStyle::Rows));
    assert_eq!(sent.commands.iter().map(|c| c.name()).collect::<Vec<_>>(), vec!["refresh"]);
    assert_eq!(sent.items[1].commands.len(), 2);
    assert_eq!(map.ids_left(), u64::MAX - 3);

    let (second, has_older) = map.store_query_result(sample_list());
    assert!(has_older);
    assert_eq!(second.id, proto::ActivationTarget(3));
    assert_eq!(second.items[0].id, proto::ActivationTarget(4));
    assert_eq!(map.stored_lists(), 2);
}

#[test]
fn find_callback_by_target_and_command() {
    let mut map: CommandMap<Callback> = CommandMap::new();
    map.store_query_result(sample_list());
    let (visit, cb) = map.find_callback(proto::ActivationTarget(2), &CommandId::new("alt")).unwrap();
    assert_eq!(visit.unwrap().0, "b");
    assert_eq!(*cb, 3);
    let (visit, cb) = map.find_callback(proto::ActivationTarget(0), &CommandId::new("refresh")).unwrap();
    assert!(visit.is_none());
    assert_eq!(*cb, 3);
    assert!(map.find_callback(proto::ActivationTarget(1), &CommandId::new("alt")).is_none());
    assert!(map.find_callback(proto::ActivationTarget(3), &CommandId::new("activate")).is_none());
    assert!(map.find_callback(proto::ActivationTarget(u64::MAX), &CommandId::new("refresh")).is_none());
}

#[test]
fn forget_oldest_drops_old_targets() {
    let mut map: CommandMap<Callback> = CommandMap::new();
    map.store_query_result(sample_list());
    map.store_query_result(sample_list());
    map.forget_oldest();
    assert_eq!(map.stored_lists(), 1);
    assert!(map.find_callback(proto::ActivationTarget(1), &CommandId::new("activate")).is_none());
    assert_eq!(map.find_callback(proto::ActivationTarget(4), &CommandId::new("activate")).unwrap().1, &1);
    map.forget_oldest();
    map.forget_oldest();
    assert_eq!(map.stored_lists(), 0);
}

#[test]
fn actions_and_menu() {
    assert!(matches!(Action::close().0, PluginAction::Close));
    assert!(matches!(Action::copy("x".to_string()).0, PluginAction::Copy(s) if s == "x"));
    assert!(matches!(Action::display_error("e".to_string()).0, PluginAction::DisplayError(s) if s == "e"));
    let input = Input::new("query".to_string()).select(SelectionRange::at(2));
    match Action::set_input(input).0 {
        PluginAction::SetInput(i) => {
            assert_eq!(i.query, "query");
            assert_eq!(i.selection, 2..2);
        }
        _ => panic!("expected set input"),
    }
    let menu = Menu { request_id: RequestId(7) };
    let r = menu.close();
    assert_eq!(r.request_id, RequestId(7));
    assert!(matches!(r.response, ResponseBody::PerformAction(PluginAction::Close)));
    let r = menu.copy("c".to_string());
    assert!(matches!(r.response, ResponseBody::PerformAction(PluginAction::Copy(s)) if s == "c"));
    let r = menu.display_error("bad".to_string());
    assert!(matches!(r.response, ResponseBody::PerformAction(PluginAction::DisplayError(s)) if s == "bad"));
    let r = menu.set_input(Input::new("q".to_string()));
    assert!(matches!(r.response, ResponseBody::PerformAction(PluginAction::SetInput(i)) if i.selection == (usize::MAX..usize::MAX)));
}

#[test]
fn selection_ranges() {
    assert_eq!(SelectionRange::all().to_range(), 0..usize::MAX);
    assert_eq!(SelectionRange::start().to_range(), 0..0);
    assert_eq!(SelectionRange::end().to_range(), usize::MAX..usize::MAX);
    assert_eq!(Input::new("q".to_string()).selection, SelectionRange::end());
}

#[test]
fn deserialization_error_message() {
    let e = DeserializationError("missing field".to_string());
    assert_eq!(e.to_string(), "failed to deserialize plugin configuration: missing field");
    assert!(<() as ManifestDeserialization>::try_from_input("anything").is_ok());
}

#[test]
fn requests_and_responses() {
    let q = proto::Request::query(RequestId(1), "text".to_string());
    assert_eq!(q.id, RequestId(1));
    assert!(matches!(&q.request, proto::RequestBody::Query(r) if r.text == "text"));
    let a = proto::Request::activate(RequestId(2), proto::ActivationTarget(9), CommandId::new("go"));
    assert!(matches!(&a.request, proto::RequestBody::Activate(r) if r.target_id == proto::ActivationTarget(9) && r.command_id.name() == "go"));
    let e = proto::Response::display_error(RequestId(3), "oops".to_string());
    assert!(matches!(e.response, ResponseBody::PerformAction(PluginAction::DisplayError(s)) if s == "oops"));
}

#[test]
fn lookups_survive_later_stores_and_forgets() {
    let mut map: CommandMap<Callback> = CommandMap::new();
    let (a, _) = map.store_query_result(sample_list());
    let (b, _) = map.store_query_result(sample_list());
    map.forget_oldest();
    let (c, _) = map.store_query_result(sample_list());
    assert_eq!((a.id.0, b.id.0, c.id.0), (0, 3, 6));
    // the list that was forgotten finds nothing, the others still find theirs
    assert!(map.find_callback(a.items[1].id, &CommandId::new("alt")).is_none());
    assert_eq!(map.find_callback(b.items[1].id, &CommandId::new("alt")).unwrap().1, &3);
    assert_eq!(map.find_callback(c.id, &CommandId::new("refresh")).unwrap().1, &3);
    assert_eq!(map.find_callback(c.items[0].id, &CommandId::new("activate")).unwrap().0.unwrap().0, "a");
    assert!(map.find_callback(proto::ActivationTarget(9), &CommandId::new("activate")).is_none());
}
