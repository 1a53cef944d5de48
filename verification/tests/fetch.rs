use isola::config::StartupConfigError;
use isola::fetch::{
    absorb, detail_endpoint, detail_endpoint_from, detail_endpoints, gather, list_endpoint,
    list_endpoint_from, list_query, token_header, FetchError, PAGE_SIZE,
};
use isola::model::{Runner, RunnerDetails};

fn summary(id: usize) -> Runner {
    Runner {
        id,
        description: format!("summary {}", id),
        ip_address: String::from("192.0.2.1"),
        active: true,
        is_shared: true,
        name: Some(format!("runner-{}", id)),
        online: true,
        status: String::from("online"),
    }
}

fn details(id: usize) -> RunnerDetails {
    RunnerDetails {
        id,
        description: format!("details {}", id),
        ip_address: String::from("192.0.2.1"),
        active: true,
        is_shared: true,
        name: Some(format!("runner-{}", id)),
        online: true,
        status: String::from("online"),
        architecture: Some(String::from("amd64")),
        runner_type: Some(String::from("instance_type")),
        contacted_at: String::from("2021-06-01T12:00:00Z"),
        platform: Some(String::from("linux")),
        projects: Vec::new(),
        revision: None,
        tag_list: vec![String::from("docker")],
        version: Some(String::from("14.0.0")),
        access_level: String::from("not_protected"),
        maximum_timeout: Some(3600),
    }
}

fn ids_sorted(runners: &Vec<RunnerDetails>) -> Vec<usize> {
    let mut ids: Vec<usize> = runners.iter().map(|r| r.id).collect();
    ids.sort();
    ids
}

#[test]
fn page_size_is_one_hundred() {
    assert_eq!(PAGE_SIZE, 100);
    assert_eq!(list_query(), (String::from("per_page"), String::from("100")));
}

#[test]
fn token_travels_in_the_private_token_header() {
    assert_eq!(token_header(), "PRIVATE-TOKEN");
}

#[test]
fn list_endpoint_is_the_runners_path_of_the_host() {
    assert_eq!(
        list_endpoint("gitlab.example.com"),
        Ok(String::from("https://gitlab.example.com/api/v4/runners/"))
    );
}

#[test]
fn list_endpoint_keeps_a_port() {
    assert_eq!(
        list_endpoint("gitlab.example.com:8443"),
        Ok(String::from("https://gitlab.example.com:8443/api/v4/runners/"))
    );
}

#[test]
fn list_endpoint_is_normalized_by_the_parser() {
    assert_eq!(
        list_endpoint("GitLab.Example.COM"),
        Ok(String::from("https://gitlab.example.com/api/v4/runners/"))
    );
}

#[test]
fn host_that_makes_no_url_is_a_startup_failure() {
    assert_eq!(list_endpoint("exa mple.com"), Err(StartupConfigError::InvalidHost));
    assert_eq!(list_endpoint("[::1"), Err(StartupConfigError::InvalidHost));
}

#[test]
fn detail_endpoint_appends_the_id() {
    assert_eq!(
        detail_endpoint("https://gitlab.example.com/api/v4/runners/", 7),
        Ok(String::from("https://gitlab.example.com/api/v4/runners/7"))
    );
    assert_eq!(
        detail_endpoint("https://gitlab.example.com/api/v4/runners/", 1234),
        Ok(String::from("https://gitlab.example.com/api/v4/runners/1234"))
    );
}

#[test]
fn detail_endpoint_of_a_base_without_trailing_slash_replaces_the_last_segment() {
    assert_eq!(
        detail_endpoint("https://gitlab.example.com/api/v4/runners", 7),
        Ok(String::from("https://gitlab.example.com/api/v4/7"))
    );
}

#[test]
fn detail_endpoint_of_no_url_is_a_failure() {
    assert_eq!(detail_endpoint("not a url", 1), Err(FetchError::InvalidUrl));
    assert_eq!(detail_endpoint("mailto:admin@example.com", 1), Err(FetchError::InvalidUrl));
}

#[test]
fn parse_outcomes_map_to_startup_results() {
    assert_eq!(
        list_endpoint_from(Ok(String::from("https://h/api/v4/runners/"))),
        Ok(String::from("https://h/api/v4/runners/"))
    );
    let rejected = url::Url::parse("no scheme").unwrap_err();
    assert_eq!(list_endpoint_from(Err(rejected)), Err(StartupConfigError::InvalidHost));
}

#[test]
fn join_outcomes_map_to_fetch_results() {
    assert_eq!(
        detail_endpoint_from(Ok(String::from("https://h/api/v4/runners/3"))),
        Ok(String::from("https://h/api/v4/runners/3"))
    );
    let rejected = url::Url::parse("no scheme").unwrap_err();
    assert_eq!(detail_endpoint_from(Err(rejected)), Err(FetchError::InvalidUrl));
}

#[test]
fn one_detail_endpoint_per_summary_in_list_order() {
    let summaries: Vec<Runner> = vec![summary(3), summary(1), summary(20)];
    let endpoint = list_endpoint("gitlab.example.com").unwrap();
    assert_eq!(
        detail_endpoints(&endpoint, &summaries),
        Ok(vec![
            String::from("https://gitlab.example.com/api/v4/runners/3"),
            String::from("https://gitlab.example.com/api/v4/runners/1"),
            String::from("https://gitlab.example.com/api/v4/runners/20"),
        ])
    );
}

#[test]
fn no_summaries_need_no_detail_endpoints() {
    let summaries: Vec<Runner> = Vec::new();
    assert_eq!(
        detail_endpoints("https://gitlab.example.com/api/v4/runners/", &summaries),
        Ok(Vec::new())
    );
    assert_eq!(detail_endpoints("not a url", &summaries), Ok(Vec::new()));
}

#[test]
fn duplicate_ids_are_asked_twice() {
    let summaries: Vec<Runner> = vec![summary(4), summary(4)];
    let urls = detail_endpoints("https://gitlab.example.com/api/v4/runners/", &summaries).unwrap();
    assert_eq!(urls.len(), 2);
    assert_eq!(urls[0], urls[1]);
}

#[test]
fn detail_endpoints_fail_as_a_whole() {
    let summaries: Vec<Runner> = vec![summary(1), summary(2)];
    assert_eq!(detail_endpoints("not a url", &summaries), Err(FetchError::InvalidUrl));
}

#[test]
fn gather_keeps_the_order_of_arrival() {
    let summaries: Vec<Runner> = vec![summary(1), summary(2), summary(3)];
    let completions: Vec<Result<RunnerDetails, FetchError>> =
        vec![Ok(details(3)), Ok(details(1)), Ok(details(2))];
    let runners = gather(completions).unwrap();
    assert_eq!(runners.len(), summaries.len());
    let arrived: Vec<usize> = runners.iter().map(|r| r.id).collect();
    assert_eq!(arrived, vec![3, 1, 2]);
    let mut listed: Vec<usize> = summaries.iter().map(|r| r.id).collect();
    listed.sort();
    assert_eq!(ids_sorted(&runners), listed);
    assert_eq!(runners[0], details(3));
}

#[test]
fn every_order_of_arrival_gives_the_same_ids() {
    let orders: Vec<Vec<usize>> = vec![
        vec![1, 2, 3],
        vec![1, 3, 2],
        vec![2, 1, 3],
        vec![2, 3, 1],
        vec![3, 1, 2],
        vec![3, 2, 1],
    ];
    for order in orders {
        let completions: Vec<Result<RunnerDetails, FetchError>> =
            order.iter().map(|id| Ok(details(*id))).collect();
        let runners = gather(completions).unwrap();
        assert_eq!(runners.len(), 3);
        let arrived: Vec<usize> = runners.iter().map(|r| r.id).collect();
        assert_eq!(arrived, order);
        assert_eq!(ids_sorted(&runners), vec![1, 2, 3]);
    }
}

#[test]
fn gather_of_nothing_is_an_empty_success() {
    assert_eq!(gather(Vec::new()), Ok(Vec::new()));
}

#[test]
fn one_failure_fails_the_fetch() {
    let mut failing: usize = 0;
    while failing < 3 {
        let mut completions: Vec<Result<RunnerDetails, FetchError>> = Vec::new();
        let mut i: usize = 0;
        while i < 3 {
            if i == failing {
                completions.push(Err(FetchError::Transport));
            } else {
                completions.push(Ok(details(i)));
            }
            i += 1;
        }
        assert_eq!(gather(completions), Err(FetchError::Transport));
        failing += 1;
    }
}

#[test]
fn first_failure_to_arrive_is_the_one_reported() {
    let completions: Vec<Result<RunnerDetails, FetchError>> = vec![
        Ok(details(1)),
        Err(FetchError::Decode),
        Ok(details(2)),
        Err(FetchError::Transport),
    ];
    assert_eq!(gather(completions), Err(FetchError::Decode));
}

#[test]
fn absorb_adds_a_detail_behind_the_others() {
    let collected = absorb(Ok(Vec::new()), Ok(details(9)));
    assert_eq!(collected, Ok(vec![details(9)]));
    let collected = absorb(collected, Ok(details(4)));
    assert_eq!(collected, Ok(vec![details(9), details(4)]));
}

#[test]
fn absorb_fails_on_a_failure_and_stays_failed() {
    let collected = absorb(Ok(vec![details(9)]), Err(FetchError::Decode));
    assert_eq!(collected, Err(FetchError::Decode));
    let collected = absorb(collected, Ok(details(4)));
    assert_eq!(collected, Err(FetchError::Decode));
    let collected = absorb(collected, Err(FetchError::Transport));
    assert_eq!(collected, Err(FetchError::Decode));
}
