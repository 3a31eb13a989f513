//! Drawing the screen, and which of its rows are visible.

use tuivir::application::{
    App, AppEvent, Command, DetailView, ProviderRequest, Resource, ResourceCommand, ResourcePanel,
    WorkspaceError, WorkspaceSnapshot,
};
use tuivir::domain::{
    Provider, ProviderId, ResourceId, ResourcePanelId, ResourceState, TargetEnvironment,
};
use tuivir::infrastructure::provider::ProviderDiscovery;
use tuivir::presentation::drawing::{theme_colour, Drawing, Frame, TextStyle, ThemeRole, Widget};
use tuivir::presentation::geometry::Rect;
use tuivir::presentation::render;
use tuivir::presentation::render::{panel_title_style, resource_state_symbol};
use tuivir::presentation::screen_layout::visible_resource_range;

#[test]
fn resource_viewport_contains_only_rows_ending_at_the_selection() {
    assert_eq!(visible_resource_range(8, 3, 12), 6..9);
    assert_eq!(visible_resource_range(1, 3, 12), 0..3);
    assert_eq!(visible_resource_range(11, 3, 12), 9..12);
}

#[test]
fn render_focused_panel_titles_are_visually_distinct() {
    assert_eq!(
        panel_title_style(true),
        TextStyle {
            fg: Some(theme_colour(ThemeRole::Primary)),
            bg: None,
            bold: true,
        }
    );
    assert_eq!(panel_title_style(false), TextStyle::plain());
}

fn resource(index: usize) -> Resource {
    let name = format!("api-{index}");
    Resource {
        id: ResourceId::new(&name),
        name,
        secondary_text: None,
        status: Some("running".to_owned()),
        state: Some(ResourceState::Running),
        fields: vec![("Image", "nginx:1.27".to_owned())],
        snapshot_details: Vec::new(),
        available_commands: &[ResourceCommand::Stop, ResourceCommand::Delete],
        shell: None,
    }
}

fn app(error: Option<WorkspaceError>, count: usize) -> App {
    let mut app = App::new();
    let requests = app.update(
        ProviderDiscovery::new(
            Provider::new(
                ProviderId::new("docker"),
                "Docker",
                Some(TargetEnvironment::new("desktop-linux")),
                None,
            ),
            error,
        )
        .into_event(),
    );
    for request in requests {
        if let ProviderRequest::RefreshWorkspace {
            request_id,
            provider_id,
        } = request
        {
            app.update(AppEvent::RefreshCompleted {
                request_id,
                provider_id,
                result: Ok(WorkspaceSnapshot {
                    panels: vec![ResourcePanel {
                        id: ResourcePanelId::new("containers"),
                        title: "Containers".to_owned(),
                        detail_views: vec![DetailView::new("logs", "Logs")],
                        resources: (0..count).map(resource).collect(),
                    }],
                }),
            });
        }
    }
    app
}

fn drawn(app: &App) -> Vec<Drawing> {
    render(app.state(), Rect::new(0, 0, 80, 24))
}

fn frames(drawings: &[Drawing]) -> Vec<&Frame> {
    drawings
        .iter()
        .filter_map(|drawing| match &drawing.widget {
            Widget::Paragraph { frame, .. } => frame.as_ref(),
            Widget::List { frame, .. } | Widget::Frame(frame) => Some(frame),
            Widget::Clear => None,
        })
        .collect()
}

fn lines(drawing: &Drawing) -> Vec<String> {
    let lines = match &drawing.widget {
        Widget::Paragraph { lines, .. } => lines,
        Widget::List { items, .. } => items,
        _ => return Vec::new(),
    };
    lines
        .iter()
        .map(|line| line.spans.iter().map(|span| span.text.as_str()).collect())
        .collect()
}

fn all_lines(drawings: &[Drawing]) -> Vec<String> {
    drawings.iter().flat_map(lines).collect()
}

#[test]
fn an_empty_screen_says_that_nothing_was_discovered() {
    let app = App::new();
    let drawings = drawn(&app);
    assert!(all_lines(&drawings).contains(&"No providers discovered".to_owned()));
    assert_eq!(frames(&drawings)[0].title, " Workspace ");
}

#[test]
fn an_unreachable_provider_shows_why() {
    let app = app(Some(WorkspaceError::new("no daemon")), 0);
    assert!(all_lines(&drawn(&app)).contains(&"no daemon".to_owned()));
}

#[test]
fn the_footer_shows_keys_and_always_ends_in_help() {
    let app = app(None, 2);
    let drawings = drawn(&app);
    let footer = drawings
        .iter()
        .find(|drawing| drawing.area == Rect::new(0, 23, 80, 1))
        .expect("a footer");
    let text = lines(footer).concat();
    assert!(text.starts_with(" s  "), "{text}");
    assert!(text.ends_with(" ?  all commands"), "{text}");
}

#[test]
fn deleting_says_what_confirming_will_do() {
    let mut app = app(None, 2);
    app.invoke(Command::Resource(ResourceCommand::Delete));
    let drawings = drawn(&app);
    let modal = drawings.last().expect("a modal");
    assert_eq!(
        lines(modal),
        [
            "Delete Docker resource api-0 (api-0)?",
            "It will be stopped and removed.",
            "Press y/Enter to confirm or n/Esc to cancel.",
        ]
    );
    assert_eq!(
        frames(&drawings).last().map(|frame| frame.title.as_str()),
        Some(" Confirm deletion ")
    );
    assert_eq!(drawings[drawings.len() - 2].widget, Widget::Clear);
    assert_eq!(drawings[drawings.len() - 2].area, modal.area);
}

#[test]
fn help_names_its_target_and_what_is_unavailable() {
    let mut app = app(None, 2);
    app.invoke(Command::ToggleHelp);
    let drawings = drawn(&app);
    assert_eq!(
        frames(&drawings).last().map(|frame| frame.title.as_str()),
        Some(" Commands for api-0 ")
    );
    let text = lines(drawings.last().expect("a modal"));
    assert!(text.iter().any(|line| line.starts_with("s  ") && !line.contains("unavailable")));
    assert!(text
        .iter()
        .any(|line| line.starts_with("S  ") && line.ends_with(" (unavailable)")));
}

#[test]
fn every_state_has_a_symbol_of_its_own() {
    let states = [
        ResourceState::Running,
        ResourceState::Stopped,
        ResourceState::Paused,
        ResourceState::Transitioning,
        ResourceState::Broken,
        ResourceState::Unknown,
    ];
    for (index, state) in states.iter().enumerate() {
        for other in &states[index + 1..] {
            assert_ne!(resource_state_symbol(*state), resource_state_symbol(*other));
        }
    }
}

#[test]
fn the_provider_bar_names_itself_only_while_it_is_empty() {
    let bar = Rect::new(0, 0, 80, 1);
    let labelled = |app: &App| {
        drawn(app)
            .iter()
            .filter(|drawing| drawing.area == bar)
            .flat_map(lines)
            .collect::<Vec<_>>()
    };
    let empty = labelled(&App::new());
    assert_eq!(empty.len(), 1);
    assert!(empty[0].contains("Providers"), "{empty:?}");
    assert!(labelled(&app(None, 1)).is_empty());
}
