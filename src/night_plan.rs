use vstd::prelude::*;

verus! {

/// A reference to a project of the test management service.
#[derive(Debug)]
pub struct Project {
    pub id: usize,
    pub url: String,
}

/// A reference to the status of a test cycle.
#[derive(Debug)]
pub struct Status {
    pub id: usize,
    pub url: String,
}

/// A reference to the owner of a test cycle.
#[derive(Debug)]
pub struct Owner {
    pub id: String,
    pub url: String,
}

/// A test plan that a test cycle is linked to.
#[derive(Debug)]
pub struct TestPlan {
    pub id: usize,
    pub url: String,
    pub test_plan_id: usize,
    pub test_plan_type: String,
    pub target: String,
}

/// The links of a test cycle.
#[derive(Debug)]
pub struct Links {
    pub url: String,
    pub issues: Vec<String>,
    pub web_links: Vec<String>,
    pub test_plans: Vec<TestPlan>,
}

/// The end-of-night checklist of a night plan.
#[derive(Debug)]
pub struct CustomFields {
    pub tma_elevation_position: String,
    pub tma_azimuth_position: String,
    pub tma_walk_around_performed_by: String,
    pub tma_walk_around_comments: String,
    pub tma_walk_around_done: bool,
    pub tma_ready: bool,
    pub end_of_night_power_supply: String,
    pub end_of_night_oss: String,
}

/// A night's plan, kept as a test cycle of the test management service.
#[derive(Debug)]
pub struct NightPlan {
    pub id: usize,
    pub key: String,
    pub name: String,
    pub project: Project,
    pub jira_project_version: Option<String>,
    pub status: Status,
    pub folder: Option<String>,
    pub description: Option<String>,
    pub planned_start_date: String,
    pub planned_end_date: String,
    pub owner: Owner,
    pub custom_fields: CustomFields,
    pub links: Links,
}

} // verus!
