use vstd::prelude::*;

verus! {

/// The issue-filing action: files an issue in the tracker and, where a
/// sprint is active, adds it to that sprint.
pub struct JIRA {
    pub user: String,
    pub jira_url: String,
    pub proxy: Option<Vec<String>>,
    pub project: String,
}

/// The fields of an issue to file.
pub struct JIRATaskProjectDesc {
    pub project_key: String,
    pub summary: String,
    pub description: String,
    pub issuetype_name: String,
}

impl JIRATaskProjectDesc {
    /// A task of the tracker project with the given title and description.
    pub fn new(title: &str, desc: &str) -> (res: Self)
        ensures
            res.project_key@ == "PADDLEQ"@,
            res.summary@ == title@,
            res.description@ == desc@,
            res.issuetype_name@ == "Task"@,
    {
        JIRATaskProjectDesc {
            project_key: String::from_str("PADDLEQ"),
            summary: String::from_str(title),
            description: String::from_str(desc),
            issuetype_name: String::from_str("Task"),
        }
    }
}

/// A sprint of the tracker.
pub struct Sprint {
    pub name: String,
    pub url: String,
}

impl Sprint {
    /// The address to which issues of this sprint are posted.
    pub fn issue_url(&self) -> (res: String)
        ensures
            res@ == self.url@ + "/issue"@,
    {
        let mut r = self.url.clone();
        r.append("/issue");
        r
    }

    /// What is announced once the issue `key` is in this sprint.
    pub fn submitted_feedback(&self, key: &str) -> (res: String)
        ensures
            res@ == key@ + " submitted to Sprint "@ + self.name@ + " in JIRA"@,
    {
        let mut r = String::from_str(key);
        r.append(" submitted to Sprint ");
        r.append(self.name.as_str());
        r.append(" in JIRA");
        r
    }
}

impl JIRA {
    pub fn new(user: String, jira_url: String, proxy: Option<Vec<String>>, project: String) -> (res: Self)
        ensures
            res.user == user,
            res.jira_url == jira_url,
            res.proxy == proxy,
            res.project == project,
    {
        JIRA { user: user, jira_url: jira_url, proxy: proxy, project: project }
    }

    /// The address that lists the boards of the project.
    pub fn board_request_url(&self) -> (res: String)
        ensures
            res@ == self.jira_url@ + "/rest/agile/1.0/board?projectKeyOrId="@ + self.project@,
    {
        let mut r = self.jira_url.clone();
        r.append("/rest/agile/1.0/board?projectKeyOrId=");
        r.append(self.project.as_str());
        r
    }

    /// The address that lists the active sprints of the most recent board:
    /// the first of `board_urls`; `None` where the project has no board.
    pub fn active_sprint_request_url(&self, board_urls: &Vec<String>) -> (res: Option<String>)
        ensures
            board_urls@.len() == 0 ==> res is None,
            board_urls@.len() > 0 ==> (res matches Some(u) && u@ == board_urls@[0]@
                + "/sprint?state=active"@),
    {
        if board_urls.len() == 0 {
            return None;
        }
        let mut r = board_urls[0].clone();
        r.append("/sprint?state=active");
        Some(r)
    }

    /// The address to which issues are posted.
    pub fn issue_request_url(&self) -> (res: String)
        ensures
            res@ == self.jira_url@ + "/rest/api/2/issue/"@,
    {
        let mut r = self.jira_url.clone();
        r.append("/rest/api/2/issue/");
        r
    }
}

} // verus!
