//! The activation resolver: primary and context activations, completions,
//! the interrupt race, and every failure reason.

use docker_ps::docker::{docker_ps, filter_default, Action, Container, ContainerSummary, State};
use docker_ps::plugin::{
    Outcome, Plugin, PluginResponse, ResultMap, WrappedContext, WrappedResult,
};

fn running(id: &str, display: &str) -> Container {
    Container {
        name: display.to_owned(),
        id: id.to_owned(),
        image: "img".to_owned(),
        state: State::Running,
        icon: Some("./docker-icon.png".to_owned()),
    }
}

fn built_engine(containers: Vec<Container>) -> Plugin {
    let mut plugin = Plugin::new("icon.png".to_owned());
    plugin.containers = containers;
    let _ = plugin.view_containers(&filter_default());
    plugin
}

#[test]
fn activate_unknown_id_is_not_found() {
    let plugin = built_engine(vec![running("a1", "one")]);
    assert!(matches!(plugin.activate(9), Outcome::NotFound));
    assert!(matches!(plugin.complete(9), Outcome::NotFound));
    assert!(matches!(plugin.context(9), Outcome::NotFound));
    assert!(matches!(plugin.activate_context(9, 0), Outcome::NotFound));
}

#[test]
fn activate_container_result_shows_context_menu() {
    let plugin = built_engine(vec![running("a1", "one")]);
    match plugin.activate(1) {
        Outcome::Respond(PluginResponse::Context { id, options }) => {
            assert_eq!(id, 1);
            assert_eq!(options.len(), 10);
            assert_eq!(options[0].id, 0);
            assert_eq!(options[0].name, "Attach");
            for (k, option) in options.iter().enumerate() {
                assert_eq!(option.id as usize, k);
            }
        },
        other => panic!("expected a context menu, got {:?}", std::mem::discriminant(&other)),
    }
}

#[test]
fn context_request_returns_same_menu() {
    let plugin = built_engine(vec![running("a1", "one")]);
    match plugin.context(1) {
        Outcome::Respond(PluginResponse::Context { id, options }) => {
            assert_eq!(id, 1);
            assert_eq!(options.len(), 10);
        },
        _ => panic!("expected a context menu"),
    }
}

#[test]
fn activate_context_invokes_bound_action() {
    let plugin = built_engine(vec![running("a1b2c3", "one")]);
    match plugin.activate_context(1, 1) {
        Outcome::Invoke { container_id, action } => {
            assert_eq!(container_id, "a1b2c3");
            assert_eq!(action, Action::Stop);
        },
        _ => panic!("expected an invocation"),
    }
}

#[test]
fn activate_context_unknown_entry_is_reported() {
    let plugin = built_engine(vec![running("a1", "one")]);
    assert!(matches!(plugin.activate_context(1, 10), Outcome::NoContextEntry));
}

#[test]
fn activate_context_on_transitional_state_is_a_noop() {
    let mut plugin = Plugin::new("icon.png".to_owned());
    plugin.containers = vec![Container {
        name: "one".to_owned(),
        id: "a1".to_owned(),
        image: "img".to_owned(),
        state: State::Restarting,
        icon: None,
    }];
    let (count, _) = plugin.view_containers(&filter_default());
    assert_eq!(count, Some(1));
    assert!(plugin.results.entries[0].action.is_none());
    assert!(matches!(plugin.activate_context(1, 0), Outcome::NoContext));
    assert!(matches!(plugin.activate(1), Outcome::NoAction));
}

#[test]
fn container_result_offers_no_completion() {
    let plugin = built_engine(vec![running("a1", "one")]);
    assert!(matches!(plugin.complete(1), Outcome::NoCompletion));
}

#[test]
fn notice_completes_to_the_all_command() {
    let mut plugin = Plugin::new("icon.png".to_owned());
    let out = plugin.list();
    assert_eq!(out.len(), 1);
    match plugin.complete(0) {
        Outcome::Respond(PluginResponse::Fill(text)) => assert_eq!(text, "dla"),
        _ => panic!("expected a fill response"),
    }
    match plugin.activate(0) {
        Outcome::Respond(PluginResponse::Fill(text)) => assert_eq!(text, "dla"),
        _ => panic!("expected a fill response"),
    }
}

#[test]
fn interrupt_clears_the_index() {
    let mut plugin = built_engine(vec![running("a1", "one"), running("b2", "two")]);
    assert!(matches!(plugin.activate(1), Outcome::Respond(_)));
    plugin.interrupt();
    assert!(matches!(plugin.activate(1), Outcome::NotFound));
    assert!(matches!(plugin.activate(2), Outcome::NotFound));
    assert!(matches!(plugin.activate(0), Outcome::NotFound));
    assert!(matches!(plugin.activate_context(1, 0), Outcome::NotFound));
    assert_eq!(plugin.containers.len(), 2);
}

#[test]
fn result_without_action_is_a_noop() {
    let mut plugin = Plugin::new("icon.png".to_owned());
    let payload = docker_ps::plugin::PluginSearchResult {
        id: 1,
        name: "bare".to_owned(),
        description: String::new(),
        icon: None,
    };
    plugin.results = ResultMap {
        notice: None,
        entries: vec![WrappedResult {
            action: None,
            complete: None,
            container_id: Some("a1".to_owned()),
            context_options: None,
            result: payload,
        }],
    };
    assert!(matches!(plugin.activate(1), Outcome::NoAction));
}

#[test]
fn context_activation_without_container_id_is_a_defect() {
    let mut plugin = Plugin::new("icon.png".to_owned());
    let payload = docker_ps::plugin::PluginSearchResult {
        id: 1,
        name: "orphan".to_owned(),
        description: String::new(),
        icon: None,
    };
    plugin.results = ResultMap {
        notice: None,
        entries: vec![WrappedResult {
            action: Some(docker_ps::plugin::Action::Context),
            complete: None,
            container_id: None,
            context_options: Some(vec![WrappedContext {
                name: "Start".to_owned(),
                exec_action: Some(Action::Start),
            }]),
            result: payload,
        }],
    };
    assert!(matches!(plugin.activate_context(1, 0), Outcome::MissingContainerId));
}

#[test]
fn menu_entry_without_action_is_a_noop() {
    let mut plugin = Plugin::new("icon.png".to_owned());
    let payload = docker_ps::plugin::PluginSearchResult {
        id: 1,
        name: "labelled".to_owned(),
        description: String::new(),
        icon: None,
    };
    plugin.results = ResultMap {
        notice: None,
        entries: vec![WrappedResult {
            action: Some(docker_ps::plugin::Action::Context),
            complete: None,
            container_id: Some("a1".to_owned()),
            context_options: Some(vec![WrappedContext { name: "Label".to_owned(), exec_action: None }]),
            result: payload,
        }],
    };
    assert!(matches!(plugin.activate_context(1, 0), Outcome::NoContextAction));
}

#[test]
fn scenario_running_web_container() {
    let mut plugin = Plugin::default();
    let id = "abc123abc123abc123abc123abc123abc123abc123abc123abc123abc123abcd";
    let snapshot = vec![ContainerSummary {
        id: Some(id.to_owned()),
        names: Some(vec!["/web".to_owned()]),
        image: Some("nginx".to_owned()),
        state: Some("running".to_owned()),
    }];
    docker_ps(&mut plugin.containers, &snapshot);
    let out = plugin.search("dps");
    assert_eq!(out.len(), 2);
    match &out[0] {
        PluginResponse::Append(payload) => {
            assert_eq!(payload.id, 1);
            assert_eq!(payload.name, "\u{1F197} web");
            assert_eq!(payload.description, format!("Running, image: nginx, id: {}", &id[..12]));
        },
        _ => panic!("expected an append message"),
    }
    assert!(matches!(out[1], PluginResponse::Finished));
    let entry = &plugin.results.entries[0];
    assert!(matches!(entry.action, Some(docker_ps::plugin::Action::Context)));
    assert_eq!(entry.container_id.as_deref(), Some(id));
    match plugin.activate(1) {
        Outcome::Respond(PluginResponse::Context { id: result_id, options }) => {
            assert_eq!(result_id, 1);
            assert_eq!(options.len(), 10);
            assert_eq!(options[0].id, 0);
            assert_eq!(options[0].name, "Attach");
        },
        _ => panic!("expected the context menu"),
    }
}

#[test]
fn scenario_empty_snapshot_notice_and_fill() {
    let mut plugin = Plugin::default();
    let (count, _) = plugin.view_containers(&filter_default());
    assert_eq!(count, None);
    let out = plugin.search("dl");
    assert_eq!(out.len(), 2);
    match &out[0] {
        PluginResponse::Append(payload) => {
            assert_eq!(payload.id, 0);
            assert_eq!(payload.name, "No active containers");
        },
        _ => panic!("expected the notice"),
    }
    match plugin.activate(0) {
        Outcome::Respond(PluginResponse::Fill(text)) => assert_eq!(text, "dla"),
        _ => panic!("expected a fill response"),
    }
}

#[test]
fn scenario_paused_entity_under_default_filter() {
    let mut plugin = Plugin::default();
    plugin.containers = vec![Container {
        name: "one".to_owned(),
        id: "a1".to_owned(),
        image: "img".to_owned(),
        state: State::Paused,
        icon: None,
    }];
    let (count, _) = plugin.view_containers(&filter_default());
    assert_eq!(count, None);
    let out = plugin.list();
    assert_eq!(out.len(), 1);
    match &out[0] {
        PluginResponse::Append(payload) => {
            assert_eq!(payload.id, 0);
            assert_eq!(payload.name, "No active containers");
        },
        _ => panic!("expected the notice"),
    }
}
