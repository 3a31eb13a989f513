//! How the screen is divided.

use tuivir::application::{
    App, AppEvent, Command, CommandRegistry, DetailView, PaneBoundary, ProviderRequest, Resource,
    ResourcePanel, ResourceShellProcess, WorkspaceSnapshot,
};
use tuivir::domain::{Provider, ProviderId, ResourceId, ResourcePanelId, ResourceState};
use tuivir::host::event_loop::start_size;
use tuivir::infrastructure::provider::ProviderDiscovery;
use tuivir::presentation::geometry::{Borders, Position, Rect};
use tuivir::presentation::{ScreenLayout, WorkspacePanes};

fn resource(name: String) -> Resource {
    Resource {
        id: ResourceId::new(&name),
        name,
        secondary_text: None,
        status: None,
        state: Some(ResourceState::Running),
        fields: Vec::new(),
        snapshot_details: Vec::new(),
        available_commands: &[],
        shell: Some(ResourceShellProcess::new("sh", &[])),
    }
}

/// An application with one Resource Panel for each count of Resources.
fn app(counts: &[usize], percent: u16) -> App {
    let panels = counts
        .iter()
        .enumerate()
        .map(|(panel, count)| ResourcePanel {
            id: ResourcePanelId::new(&format!("panel-{panel}")),
            title: format!("Panel {panel}"),
            detail_views: vec![DetailView::new("logs", "Logs")],
            resources: (0..*count)
                .map(|index| resource(format!("{panel}-{index}")))
                .collect(),
        })
        .collect();
    let mut app = App::with_registry_and_pane_boundary(
        CommandRegistry::builtin(),
        PaneBoundary::new(percent),
    );
    let requests = app.update(
        ProviderDiscovery::new(
            Provider::new(ProviderId::new("docker"), "Docker", None, None),
            None,
        )
        .into_event(),
    );
    for request in requests {
        if let ProviderRequest::RefreshWorkspace {
            request_id,
            provider_id,
        } = request
        {
            app.update(AppEvent::RefreshCompleted {
                request_id,
                provider_id,
                result: Ok(WorkspaceSnapshot { panels }),
            });
            return app;
        }
    }
    panic!("discovery refreshes");
}

fn panes(layout: &ScreenLayout) -> &WorkspacePanes {
    layout.panes.as_ref().expect("an Active Workspace")
}

#[test]
fn the_bands_share_every_screen_of_three_rows_or_more() {
    let app = app(&[2], 50);
    for height in 3..60 {
        let layout = ScreenLayout::measure(app.state(), Rect::new(3, 5, 70, height));
        assert_eq!(layout.provider_bar, Rect::new(3, 5, 70, 1));
        assert_eq!(layout.workspace, Rect::new(3, 6, 70, height - 2));
        assert_eq!(layout.status, Rect::new(3, 5 + height - 1, 70, 1));
    }
}

#[test]
fn the_columns_meet_at_the_nearest_column() {
    for percent in 25..=75 {
        let app = app(&[2], percent);
        for width in [0, 1, 2, 3, 7, 40, 79, 80, 81, 133, 200, 1001] {
            let layout = ScreenLayout::measure(app.state(), Rect::new(2, 0, width, 24));
            let resources = (u32::from(width) * u32::from(percent) + 50) / 100;
            let resources = u16::try_from(resources).expect("a share");
            assert_eq!(panes(&layout).resources, Rect::new(2, 1, resources, 22));
            assert_eq!(
                panes(&layout).details,
                Rect::new(2 + resources, 1, width - resources, 22)
            );
        }
    }
}

#[test]
fn panels_fill_their_column_in_proportion() {
    for counts in [
        &[1][..],
        &[1, 1],
        &[3, 1],
        &[0, 4],
        &[1, 2, 3],
        &[5, 5, 5, 5],
        &[1, 200, 3, 40, 5, 6, 7, 8, 9],
        &[5000, 1, 3000],
        &[1, 65535],
        &[9, 8, 7000, 6, 5, 4, 3, 2, 1],
    ] {
        let app = app(counts, 50);
        let weights: Vec<i64> = counts.iter().map(|count| (*count).max(1) as i64).collect();
        let total: i64 = weights.iter().sum();
        for height in 3..90u16 {
            let layout = ScreenLayout::measure(app.state(), Rect::new(0, 0, 80, height));
            let panels = &panes(&layout).resource_panels;
            let whole = i64::from(height - 2);
            let mut end = 1;
            let mut before = 0;
            for (panel, weight) in panels.iter().zip(&weights) {
                assert_eq!(panel.y, end);
                end = panel.bottom();
                before += weight;
                let off = 100 * (i64::from(end - 1) * total - whole * before);
                assert!(off.abs() <= 51 * total, "{counts:?} on {height}: {panels:?}");
            }
            assert_eq!(end, height - 1);
        }
    }
}

#[test]
fn tabs_take_one_row_of_the_details_pane() {
    let app = app(&[2], 50);
    let layout = ScreenLayout::measure(app.state(), Rect::new(0, 0, 80, 24));
    let panes = panes(&layout);
    assert_eq!(panes.detail_content.y, panes.details.y + 2);
    assert_eq!(panes.detail_content.height, 22 - 3);
    assert_eq!(panes.detail_views.len(), 3);
    assert_eq!(panes.detail_views[0].y, panes.details.y + 1);
    assert_eq!(panes.pane_boundary, Rect::new(39, 1, 2, 22));
}

#[test]
fn rows_are_the_resources_that_fit() {
    let app = app(&[100], 50);
    let layout = ScreenLayout::measure(app.state(), Rect::new(0, 0, 80, 24));
    let rows = &panes(&layout).resource_rows[0];
    assert_eq!(rows.len(), 20);
    assert_eq!(rows[0], (0, Rect::new(0, 2, 39, 1)));
    assert_eq!(rows[19].0, 19);
}

#[test]
fn a_session_starts_in_the_terminal_it_is_drawn_in() {
    let mut app = app(&[1], 50);
    app.invoke(Command::OpenShell);
    let layout = ScreenLayout::measure(app.state(), Rect::new(0, 0, 80, 24));
    let shell = layout.resource_shell.expect("a visible session");
    let size = start_size(Some(&layout));
    assert_eq!(size.columns, shell.terminal.width);
    assert_eq!(size.lines, shell.terminal.height);
    let size = start_size(None);
    assert_eq!((size.columns, size.lines), (80, 24));
}

#[test]
fn a_screen_without_providers_has_no_panes() {
    let app = App::new();
    let layout = ScreenLayout::measure(app.state(), Rect::new(0, 0, 80, 24));
    assert!(layout.panes.is_none());
    assert!(layout.overlay.is_none());
    assert!(layout.provider_workspaces.is_empty());
}

#[test]
fn rectangles_stay_on_the_largest_screen() {
    let area = Rect::new(u16::MAX - 2, 0, 10, 4);
    assert_eq!(area.width, 2);
    assert_eq!(area.right(), u16::MAX);
    assert!(area.contains(Position {
        x: u16::MAX - 1,
        y: 3
    }));
    assert!(!area.contains(Position {
        x: u16::MAX,
        y: 3
    }));
    let borders = Borders {
        left: true,
        right: false,
        top: true,
        bottom: true,
    };
    assert_eq!(
        borders.inner(Rect::new(0, 0, 10, 4)),
        Rect::new(1, 1, 9, 2)
    );
    assert_eq!(borders.inner(Rect::new(0, 0, 0, 1)).width, 0);
}
