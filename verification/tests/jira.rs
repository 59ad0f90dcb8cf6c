use corporate_assistant::jira::{JIRATaskProjectDesc, Sprint, JIRA};

fn jira() -> JIRA {
    JIRA::new("jdoe".to_string(), "https://jira.example.com".to_string(), None, "PADDLEQ".to_string())
}

#[test]
fn request_urls() {
    let j = jira();
    assert_eq!(j.board_request_url(), "https://jira.example.com/rest/agile/1.0/board?projectKeyOrId=PADDLEQ");
    assert_eq!(j.issue_request_url(), "https://jira.example.com/rest/api/2/issue/");
    assert_eq!(
        j.active_sprint_request_url(&vec!["https://jira.example.com/board/7".to_string(), "x".to_string()]),
        Some("https://jira.example.com/board/7/sprint?state=active".to_string())
    );
    assert_eq!(j.active_sprint_request_url(&vec![]), None);
}

#[test]
fn sprint_urls_and_feedback() {
    let s = Sprint { name: "Sprint 42".to_string(), url: "https://jira.example.com/sprint/42".to_string() };
    assert_eq!(s.issue_url(), "https://jira.example.com/sprint/42/issue");
    assert_eq!(s.submitted_feedback("PADDLEQ-7"), "PADDLEQ-7 submitted to Sprint Sprint 42 in JIRA");
}

#[test]
fn task_description() {
    let d = JIRATaskProjectDesc::new("Title", "Some description");
    assert_eq!(d.project_key, "PADDLEQ");
    assert_eq!(d.summary, "Title");
    assert_eq!(d.description, "Some description");
    assert_eq!(d.issuetype_name, "Task");
}
