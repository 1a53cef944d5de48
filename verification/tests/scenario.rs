use isola::config::resolve;
use isola::event::{step, Key, Phase};
use isola::fetch::{absorb, detail_endpoints, list_endpoint, FetchError};
use isola::model::{Runner, RunnerDetails};
use isola::selection::App;
use isola::style::{Color, Style};

fn listed(id: usize, status: &str) -> Runner {
    Runner {
        id,
        description: format!("worker {}", id),
        ip_address: String::from("203.0.113.5"),
        active: true,
        is_shared: true,
        name: None,
        online: true,
        status: String::from(status),
    }
}

fn expanded(summary: &Runner) -> RunnerDetails {
    RunnerDetails {
        id: summary.id,
        description: summary.description.clone(),
        ip_address: summary.ip_address.clone(),
        active: summary.active,
        is_shared: summary.is_shared,
        name: summary.name.clone(),
        online: summary.online,
        status: summary.status.clone(),
        architecture: None,
        runner_type: None,
        contacted_at: String::from("2023-01-01T00:00:00Z"),
        platform: None,
        projects: Vec::new(),
        revision: None,
        tag_list: Vec::new(),
        version: None,
        access_level: String::from("not_protected"),
        maximum_timeout: None,
    }
}

#[test]
fn two_runners_from_list_to_quit() {
    let arguments: Vec<String> = vec![String::from("gitlab.example.com"), String::from("secret")];
    let settings = resolve(None, None, &arguments).unwrap();
    let endpoint = list_endpoint(&settings.host).unwrap();

    let summaries: Vec<Runner> = vec![listed(1, "active"), listed(2, "offline")];
    let urls = detail_endpoints(&endpoint, &summaries).unwrap();
    assert_eq!(
        urls,
        vec![
            String::from("https://gitlab.example.com/api/v4/runners/1"),
            String::from("https://gitlab.example.com/api/v4/runners/2"),
        ]
    );

    let mut collected: Result<Vec<RunnerDetails>, FetchError> = Ok(Vec::new());
    for summary in summaries.iter() {
        collected = absorb(collected, Ok(expanded(summary)));
    }
    let mut app = App::new();
    for runner in collected.unwrap() {
        app.push_runner(runner);
    }

    let table = app.render();
    assert_eq!(table.rows.len(), 2);
    assert_eq!(table.title, " Runners [2] ");
    assert_eq!(table.rows[0].cells[0], "1");
    assert_eq!(table.rows[0].style, Style { fg: Some(Color::Green), bg: None, bold: false });
    assert_eq!(table.rows[1].cells[0], "2");
    assert_eq!(table.rows[1].style, Style { fg: Some(Color::Red), bg: None, bold: false });
    assert_eq!(app.selected(), Some(0));
    assert_eq!(table.highlighted, Some(0));

    let phase = step(Phase::Running, &mut app, Key::Down);
    assert_eq!(phase, Phase::Running);
    assert_eq!(app.render().highlighted, Some(1));

    let phase = step(phase, &mut app, Key::Down);
    assert_eq!(phase, Phase::Running);
    assert_eq!(app.render().highlighted, Some(0));

    let phase = step(phase, &mut app, Key::Char('q'));
    assert_eq!(phase, Phase::Terminated);
}

#[test]
fn render_of_the_app_is_the_table_of_its_runners() {
    let mut app = App::new();
    app.push_runner(expanded(&listed(7, "paused")));
    app.push_runner(expanded(&listed(8, "online")));
    app.next();
    assert_eq!(app.render(), isola::table::create_table(app.runners(), Some(1)));
}
