use ci_monitor::data::{Binary64, JobState, MergeRequestStatus, PipelineStatus};
use ci_monitor::forge::{ForgeCore, ForgeError, ForgeTask};
use ci_monitor::gitlab::errors::{forge_error, ApiFailure};
use ci_monitor::gitlab::forge::{GitlabForge, GitlabRequest, GitlabResponse};
use ci_monitor::gitlab::tasks::job::{
    GitlabJob, GitlabJobDetails, GitlabJobPipeline, GitlabJobRunner, GitlabJobStatus, GitlabJobUser,
};
use ci_monitor::gitlab::tasks::merge_request::{
    GitlabAuthor, GitlabMergeRequest, GitlabMergeRequestDetails, GitlabMergeState,
};
use ci_monitor::gitlab::tasks::pipeline::{
    GitlabPipeline, GitlabPipelineDetails, GitlabPipelineSource, GitlabPipelineStatus,
    GitlabPipelineUser,
};
use ci_monitor::gitlab::tasks::pipeline_schedule::{
    GitlabOwner, GitlabPipelineScheduleDetails,
};
use ci_monitor::gitlab::tasks::pipeline_variables::{GitlabPipelineVariable, GitlabVariableType};
use ci_monitor::gitlab::tasks::project::{AccessLevel, GitlabProject, ParentProject};
use ci_monitor::gitlab::tasks::runner::{
    GitlabRunner, GitlabRunnerAccessLevel, GitlabRunnerDetails, GitlabRunnerType,
};
use ci_monitor::gitlab::tasks::user::{GitlabUser, GitlabUserSearch};
use ci_monitor::objects::vec::VecLookup;
use ci_monitor::time::Timestamp;

fn at(secs: i64) -> Timestamp {
    Timestamp::new(secs, 0)
}

fn forge() -> GitlabForge {
    GitlabForge::new("gitlab.example.com", VecLookup::default())
}

fn gl_project(id: u64, fork_of: Option<u64>) -> GitlabProject {
    GitlabProject {
        id,
        name: format!("project {}", id),
        web_url: format!("https://gitlab.example.com/p/{}", id),
        path_with_namespace: format!("group/p{}", id),
        merge_requests_access_level: AccessLevel::Enabled,
        builds_access_level: AccessLevel::Enabled,
        environments_access_level: AccessLevel::Disabled,
        forked_from_project: fork_of.map(|id| ParentProject { id }),
        updated_at: at(1_000),
    }
}

fn gl_user(id: u64) -> GitlabUser {
    GitlabUser {
        id,
        name: "A User".to_string(),
        username: "user".to_string(),
        email: None,
        public_email: "".to_string(),
    }
}

fn gl_pipeline(id: u64, project_id: u64, user: Option<u64>) -> GitlabPipelineDetails {
    GitlabPipelineDetails {
        id,
        project_id,
        name: None,
        sha: "0000000000000000000000000000000000000000".to_string(),
        previous_sha: None,
        ref_: None,
        source: GitlabPipelineSource::Push,
        user: user.map(|id| GitlabPipelineUser { id }),
        status: GitlabPipelineStatus::Running,
        coverage: None,
        web_url: "https://gitlab.example.com/pipeline".to_string(),
        created_at: at(10),
        updated_at: at(20),
        started_at: Some(at(11)),
        finished_at: None,
    }
}

fn gl_job(id: u64, user: u64, pipeline: u64, project: u64) -> GitlabJobDetails {
    GitlabJobDetails {
        id,
        user: GitlabJobUser { id: user },
        name: "build".to_string(),
        stage: "test".to_string(),
        status: GitlabJobStatus::Success,
        allow_failure: false,
        tag_list: vec!["linux".to_string()],
        web_url: "https://gitlab.example.com/job".to_string(),
        pipeline: GitlabJobPipeline { id: pipeline, project_id: project },
        runner: None,
        created_at: at(30),
        started_at: Some(at(31)),
        finished_at: Some(at(32)),
        erased_at: None,
        queued_duration: None,
        archived: false,
        coverage: None,
    }
}

fn gl_merge_request(id: u64, iid: u64, state: GitlabMergeState) -> GitlabMergeRequestDetails {
    GitlabMergeRequestDetails {
        id,
        iid,
        author: GitlabAuthor { id: 5 },
        web_url: "https://gitlab.example.com/mr".to_string(),
        title: "title".to_string(),
        description: "description".to_string(),
        state,
        source_project_id: None,
        source_branch: "topic".to_string(),
        sha: None,
        target_project_id: 13,
        target_branch: "main".to_string(),
    }
}

#[test]
fn new_forge_stores_its_instance() {
    let forge = forge();
    let storage = forge.storage.clone();
    assert_eq!(storage.counts().instances, 1);
    let instance = forge.instance();
    assert_eq!(instance.forge, "gitlab");
    assert_eq!(instance.url, "gitlab.example.com");
    assert_eq!(instance.unique_id, 0);
    assert_eq!(forge.instance_index().idx, 0);

    // The instance is found again, and another URL gets another instance.
    let again = GitlabForge::new("gitlab.example.com", forge.into_storage());
    assert_eq!(again.storage.counts().instances, 1);
    assert_eq!(again.instance_index().idx, 0);
    let other = GitlabForge::new("gitlab.example.org", again.into_storage());
    assert_eq!(other.storage.counts().instances, 2);
    assert_eq!(other.instance_index().idx, 1);
    assert_eq!(other.instance().unique_id, 1);
    assert_eq!(other.instance().url, "gitlab.example.org");
}

#[test]
fn cold_instance_single_project() {
    let mut forge = forge();
    let outcome = forge
        .run_task(
            ForgeTask::UpdateProject { project: 13 },
            GitlabResponse::Project(gl_project(13, None)),
            at(2_000),
        )
        .unwrap();
    assert_eq!(
        outcome.additional_tasks,
        vec![
            ForgeTask::DiscoverMergeRequests { project: 13 },
            ForgeTask::DiscoverPipelineSchedules { project: 13 },
            ForgeTask::DiscoverPipelines { project: 13 },
        ]
    );
    assert!(outcome.task_delay.is_none());
    let counts = forge.storage.counts();
    assert_eq!(counts.instances, 1);
    assert_eq!(counts.projects, 1);
    let idx = forge.storage.find_project(13).unwrap();
    let project = forge.storage.lookup_project(&idx).unwrap();
    assert_eq!(project.forge_id, 13);
    assert_eq!(project.name, "project 13");
    assert_eq!(project.url, "https://gitlab.example.com/p/13");
    assert_eq!(project.instance_path, "group/p13");
    assert_eq!(project.instance.idx, 0);
    assert_eq!(project.cim_fetched_at, at(2_000));
    assert_eq!(project.cim_refreshed_at, at(2_000));

    let outcome = forge
        .run_task(
            ForgeTask::DiscoverRunners,
            GitlabResponse::Runners(vec![GitlabRunner { id: 3 }, GitlabRunner { id: 1 }]),
            at(2_001),
        )
        .unwrap();
    assert_eq!(
        outcome.additional_tasks,
        vec![ForgeTask::UpdateRunner { id: 3 }, ForgeTask::UpdateRunner { id: 1 }]
    );
}

#[test]
fn project_with_every_feature_and_private_builds() {
    let mut forge = forge();
    let mut gl = gl_project(13, None);
    gl.builds_access_level = AccessLevel::Private;
    gl.environments_access_level = AccessLevel::Enabled;
    gl.merge_requests_access_level = AccessLevel::Disabled;
    let outcome = ci_monitor::gitlab::tasks::project::update_project_impl(&mut forge, gl, at(5))
        .unwrap();
    assert_eq!(
        outcome.additional_tasks,
        vec![
            ForgeTask::DiscoverPipelineSchedules { project: 13 },
            ForgeTask::DiscoverPipelines { project: 13 },
            ForgeTask::DiscoverEnvironments { project: 13 },
            ForgeTask::DiscoverDeployments { project: 13 },
        ]
    );
}

#[test]
fn fresh_project_is_not_discovered_again() {
    let mut forge = forge();
    forge
        .run_task(
            ForgeTask::UpdateProject { project: 13 },
            GitlabResponse::Project(gl_project(13, None)),
            at(2_000),
        )
        .unwrap();
    // GitLab saw no change since the store refreshed the project.
    let mut unchanged = gl_project(13, None);
    unchanged.name = "renamed".to_string();
    let outcome = forge
        .run_task(
            ForgeTask::UpdateProject { project: 13 },
            GitlabResponse::Project(unchanged),
            at(3_000),
        )
        .unwrap();
    assert!(outcome.additional_tasks.is_empty());
    assert_eq!(forge.storage.counts().projects, 1);
    let idx = forge.storage.find_project(13).unwrap();
    let project = forge.storage.lookup_project(&idx).unwrap();
    assert_eq!(project.name, "renamed");
    assert_eq!(project.cim_fetched_at, at(2_000));
    assert_eq!(project.cim_refreshed_at, at(3_000));

    // GitLab saw a change after the last refresh.
    let mut changed = gl_project(13, None);
    changed.updated_at = at(3_500);
    let outcome = forge
        .run_task(
            ForgeTask::UpdateProjectByName { project: "group/p13".to_string() },
            GitlabResponse::Project(changed),
            at(4_000),
        )
        .unwrap();
    assert_eq!(outcome.additional_tasks.len(), 3);
}

#[test]
fn refresh_is_never_dated_before_the_first_fetch() {
    let mut forge = forge();
    forge
        .run_task(
            ForgeTask::UpdateUser { user: 5 },
            GitlabResponse::User(gl_user(5)),
            at(2_000),
        )
        .unwrap();
    // The clock went back.
    forge
        .run_task(
            ForgeTask::UpdateUser { user: 5 },
            GitlabResponse::User(gl_user(5)),
            at(1_000),
        )
        .unwrap();
    let idx = forge.storage.find_user(5).unwrap();
    let user = forge.storage.lookup_user(&idx).unwrap();
    assert_eq!(user.cim_fetched_at, at(2_000));
    assert_eq!(user.cim_refreshed_at, at(2_000));
}

#[test]
fn forked_project_chain() {
    let mut forge = forge();
    let outcome = forge
        .run_task(
            ForgeTask::UpdateProject { project: 7 },
            GitlabResponse::Project(gl_project(7, Some(4))),
            at(1),
        )
        .unwrap();
    assert!(outcome.additional_tasks.contains(&ForgeTask::UpdateProject { project: 4 }));
    assert_eq!(outcome.additional_tasks.last(), Some(&ForgeTask::UpdateProject { project: 4 }));
    let outcome = forge
        .run_task(
            ForgeTask::UpdateProject { project: 4 },
            GitlabResponse::Project(gl_project(4, Some(2))),
            at(2),
        )
        .unwrap();
    assert!(outcome.additional_tasks.contains(&ForgeTask::UpdateProject { project: 2 }));
    let outcome = forge
        .run_task(
            ForgeTask::UpdateProject { project: 2 },
            GitlabResponse::Project(gl_project(2, None)),
            at(3),
        )
        .unwrap();
    assert!(!outcome
        .additional_tasks
        .iter()
        .any(|task| matches!(task, ForgeTask::UpdateProject { .. })));
    assert_eq!(forge.storage.counts().projects, 3);
    for id in [2, 4, 7] {
        assert!(forge.storage.find_project(id).is_some());
    }
    assert!(forge.storage.has_unique_ids());
}

#[test]
fn user_email() {
    let mut forge = forge();
    let mut gl = gl_user(5);
    gl.public_email = "public@example.com".to_string();
    forge.run_task(ForgeTask::UpdateUser { user: 5 }, GitlabResponse::User(gl), at(1)).unwrap();
    let idx = forge.storage.find_user(5).unwrap();
    let user = forge.storage.lookup_user(&idx).unwrap();
    assert_eq!(user.email.as_deref(), Some("public@example.com"));
    assert_eq!(user.handle, "user");
    assert_eq!(user.name, "A User");

    let mut gl = gl_user(5);
    gl.email = Some("private@example.com".to_string());
    gl.public_email = "public@example.com".to_string();
    forge.run_task(ForgeTask::UpdateUser { user: 5 }, GitlabResponse::User(gl), at(2)).unwrap();
    let user = forge.storage.lookup_user(&idx).unwrap();
    assert_eq!(user.email.as_deref(), Some("private@example.com"));

    forge.run_task(ForgeTask::UpdateUser { user: 5 }, GitlabResponse::User(gl_user(5)), at(3))
        .unwrap();
    let user = forge.storage.lookup_user(&idx).unwrap();
    assert_eq!(user.email, None);
    assert_eq!(forge.storage.counts().users, 1);
}

#[test]
fn user_by_name_is_updated_by_id() {
    let mut forge = forge();
    let outcome = forge
        .run_task(
            ForgeTask::UpdateUserByName { user: "user".to_string() },
            GitlabResponse::UserSearch(GitlabUserSearch { id: 9 }),
            at(1),
        )
        .unwrap();
    assert_eq!(outcome.additional_tasks, vec![ForgeTask::UpdateUser { user: 9 }]);
    assert_eq!(forge.storage.counts().users, 0);
}

#[test]
fn missing_reference_deferral() {
    let mut forge = forge();
    let outcome = forge
        .run_task(
            ForgeTask::UpdateJob { project: 13, job: 100 },
            GitlabResponse::Job(gl_job(100, 5, 50, 13)),
            at(1),
        )
        .unwrap();
    assert_eq!(
        outcome.additional_tasks,
        vec![
            ForgeTask::UpdateUser { user: 5 },
            ForgeTask::UpdatePipeline { project: 13, pipeline: 50 },
            ForgeTask::UpdateJob { project: 13, job: 100 },
        ]
    );
    assert_eq!(forge.storage.counts().jobs, 0);

    // Once the references exist, exactly one job is written.
    forge.run_task(ForgeTask::UpdateUser { user: 5 }, GitlabResponse::User(gl_user(5)), at(2))
        .unwrap();
    forge
        .run_task(
            ForgeTask::UpdateProject { project: 13 },
            GitlabResponse::Project(gl_project(13, None)),
            at(3),
        )
        .unwrap();
    forge
        .run_task(
            ForgeTask::UpdatePipeline { project: 13, pipeline: 50 },
            GitlabResponse::Pipeline(gl_pipeline(50, 13, Some(5))),
            at(4),
        )
        .unwrap();
    let outcome = forge
        .run_task(
            ForgeTask::UpdateJob { project: 13, job: 100 },
            GitlabResponse::Job(gl_job(100, 5, 50, 13)),
            at(5),
        )
        .unwrap();
    assert!(outcome.additional_tasks.is_empty());
    assert_eq!(forge.storage.counts().jobs, 1);
    let idx = forge.storage.find_job(100).unwrap();
    let job = forge.storage.lookup_job(&idx).unwrap();
    assert_eq!(job.state, JobState::Success);
    assert_eq!(job.name, "build");
    assert_eq!(job.stage, "test");
    assert_eq!(job.tags, vec!["linux".to_string()]);
    assert_eq!(job.user.idx, forge.storage.find_user(5).unwrap().idx);
    assert_eq!(job.pipeline.idx, forge.storage.find_pipeline(50).unwrap().idx);
    assert_eq!(job.runner.map(|r| r.idx), None);
    assert_eq!(job.started_at, Some(at(31)));
    assert_eq!(job.finished_at, Some(at(32)));
    assert_eq!(job.created_at, at(30));

    // A second report updates the job in place.
    let mut later = gl_job(100, 5, 50, 13);
    later.status = GitlabJobStatus::Failed;
    later.name = "renamed".to_string();
    forge
        .run_task(
            ForgeTask::UpdateJob { project: 13, job: 100 },
            GitlabResponse::Job(later),
            at(6),
        )
        .unwrap();
    assert_eq!(forge.storage.counts().jobs, 1);
    let job = forge.storage.lookup_job(&idx).unwrap();
    assert_eq!(job.state, JobState::Failed);
    assert_eq!(job.name, "build");
    assert!(forge.storage.has_unique_ids());
}

#[test]
fn job_with_unknown_runner_is_stored_without_it() {
    let mut forge = forge();
    forge.run_task(ForgeTask::UpdateUser { user: 5 }, GitlabResponse::User(gl_user(5)), at(2))
        .unwrap();
    forge
        .run_task(
            ForgeTask::UpdateProject { project: 13 },
            GitlabResponse::Project(gl_project(13, None)),
            at(3),
        )
        .unwrap();
    forge
        .run_task(
            ForgeTask::UpdatePipeline { project: 13, pipeline: 50 },
            GitlabResponse::Pipeline(gl_pipeline(50, 13, None)),
            at(4),
        )
        .unwrap();
    let mut gl = gl_job(100, 5, 50, 13);
    gl.runner = Some(GitlabJobRunner { id: 77 });
    let outcome = forge
        .run_task(ForgeTask::UpdateJob { project: 13, job: 100 }, GitlabResponse::Job(gl), at(5))
        .unwrap();
    assert_eq!(outcome.additional_tasks, vec![ForgeTask::UpdateRunner { id: 77 }]);
    assert_eq!(forge.storage.counts().jobs, 1);
}

#[test]
fn job_coverage_is_stored_as_given() {
    let mut forge = forge();
    forge.run_task(ForgeTask::UpdateUser { user: 5 }, GitlabResponse::User(gl_user(5)), at(2))
        .unwrap();
    forge
        .run_task(
            ForgeTask::UpdateProject { project: 13 },
            GitlabResponse::Project(gl_project(13, None)),
            at(3),
        )
        .unwrap();
    forge
        .run_task(
            ForgeTask::UpdatePipeline { project: 13, pipeline: 50 },
            GitlabResponse::Pipeline(gl_pipeline(50, 13, None)),
            at(4),
        )
        .unwrap();
    let coverages = [Some(87.3f64), None, Some(42.0f64)];
    for (k, coverage) in coverages.iter().enumerate() {
        let id = 100 + k as u64;
        let mut gl = gl_job(id, 5, 50, 13);
        gl.coverage = coverage.map(|c| Binary64::from_bits(c.to_bits()));
        forge
            .run_task(ForgeTask::UpdateJob { project: 13, job: id }, GitlabResponse::Job(gl), at(5))
            .unwrap();
        let idx = forge.storage.find_job(id).unwrap();
        let job = forge.storage.lookup_job(&idx).unwrap();
        assert_eq!(job.coverage.map(|c| f64::from_bits(c.to_bits())), *coverage);
    }
}

#[test]
fn merge_request_status_coercion() {
    let mut forge = forge();
    let task = || ForgeTask::UpdateMergeRequest { project: 13, merge_request: 2 };
    // Nothing is known yet: the author and the target project are asked for.
    let outcome = forge
        .run_task(
            task(),
            GitlabResponse::MergeRequest(gl_merge_request(900, 2, GitlabMergeState::Locked)),
            at(1),
        )
        .unwrap();
    assert_eq!(
        outcome.additional_tasks,
        vec![
            ForgeTask::UpdateUser { user: 5 },
            ForgeTask::UpdateProject { project: 13 },
            ForgeTask::UpdateMergeRequest { project: 13, merge_request: 2 },
        ]
    );
    assert_eq!(forge.storage.counts().merge_requests, 0);

    forge.run_task(ForgeTask::UpdateUser { user: 5 }, GitlabResponse::User(gl_user(5)), at(2))
        .unwrap();
    forge
        .run_task(
            ForgeTask::UpdateProject { project: 13 },
            GitlabResponse::Project(gl_project(13, None)),
            at(3),
        )
        .unwrap();
    let outcome = forge
        .run_task(
            task(),
            GitlabResponse::MergeRequest(gl_merge_request(900, 2, GitlabMergeState::Locked)),
            at(4),
        )
        .unwrap();
    assert_eq!(
        outcome.additional_tasks,
        vec![ForgeTask::DiscoverMergeRequestPipelines { project: 13, merge_request: 2 }]
    );
    let idx = forge.storage.find_merge_request(900).unwrap();
    {
        let merge_request = forge.storage.lookup_merge_request(&idx).unwrap();
        assert_eq!(merge_request.state, MergeRequestStatus::Open);
        assert_eq!(merge_request.id, 2);
        assert_eq!(merge_request.forge_id, 900);
        assert_eq!(merge_request.sha, "");
        assert_eq!(merge_request.source_branch, "topic");
        assert_eq!(merge_request.target_branch, "main");
        assert_eq!(merge_request.source_project.idx, merge_request.target_project.idx);
    }

    forge
        .run_task(
            task(),
            GitlabResponse::MergeRequest(gl_merge_request(900, 2, GitlabMergeState::Merged)),
            at(5),
        )
        .unwrap();
    assert_eq!(forge.storage.counts().merge_requests, 1);
    assert_eq!(forge.storage.find_merge_request(900).unwrap().idx, idx.idx);
    let merge_request = forge.storage.lookup_merge_request(&idx).unwrap();
    assert_eq!(merge_request.state, MergeRequestStatus::Merged);
}

#[test]
fn merge_request_from_another_project() {
    let mut forge = forge();
    forge.run_task(ForgeTask::UpdateUser { user: 5 }, GitlabResponse::User(gl_user(5)), at(2))
        .unwrap();
    forge
        .run_task(
            ForgeTask::UpdateProject { project: 13 },
            GitlabResponse::Project(gl_project(13, None)),
            at(3),
        )
        .unwrap();
    let mut gl = gl_merge_request(900, 2, GitlabMergeState::Opened);
    gl.source_project_id = Some(14);
    let outcome = forge
        .run_task(
            ForgeTask::UpdateMergeRequest { project: 13, merge_request: 2 },
            GitlabResponse::MergeRequest(gl),
            at(4),
        )
        .unwrap();
    assert_eq!(
        outcome.additional_tasks,
        vec![
            ForgeTask::UpdateProject { project: 14 },
            ForgeTask::UpdateMergeRequest { project: 13, merge_request: 2 },
        ]
    );
    assert_eq!(forge.storage.counts().merge_requests, 0);
}

#[test]
fn pipeline_update() {
    let mut forge = forge();
    let outcome = forge
        .run_task(
            ForgeTask::UpdatePipeline { project: 13, pipeline: 50 },
            GitlabResponse::Pipeline(gl_pipeline(50, 13, Some(5))),
            at(1),
        )
        .unwrap();
    assert_eq!(
        outcome.additional_tasks,
        vec![
            ForgeTask::UpdateUser { user: 5 },
            ForgeTask::UpdateProject { project: 13 },
            ForgeTask::UpdatePipeline { project: 13, pipeline: 50 },
        ]
    );
    assert_eq!(forge.storage.counts().pipelines, 0);

    forge
        .run_task(
            ForgeTask::UpdateProject { project: 13 },
            GitlabResponse::Project(gl_project(13, None)),
            at(2),
        )
        .unwrap();
    // The user is still missing: the pipeline is stored without it.
    let mut gl = gl_pipeline(50, 13, Some(5));
    gl.coverage = Some(Binary64::from_bits(12.5f64.to_bits()));
    let outcome = forge
        .run_task(
            ForgeTask::UpdatePipeline { project: 13, pipeline: 50 },
            GitlabResponse::Pipeline(gl),
            at(3),
        )
        .unwrap();
    assert_eq!(
        outcome.additional_tasks,
        vec![
            ForgeTask::UpdateUser { user: 5 },
            ForgeTask::DiscoverJobs { project: 13, pipeline: 50 },
        ]
    );
    let idx = forge.storage.find_pipeline(50).unwrap();
    {
        let pipeline = forge.storage.lookup_pipeline(&idx).unwrap();
        assert_eq!(pipeline.user.map(|u| u.idx), None);
        assert_eq!(pipeline.refname.as_deref(), Some("refs/UNKNOWN"));
        assert_eq!(pipeline.stable_refname.as_deref(), Some("refs/pipelines/50"));
        assert_eq!(pipeline.status, PipelineStatus::Running);
        assert_eq!(pipeline.coverage.map(|c| f64::from_bits(c.to_bits())), Some(12.5));
        assert_eq!(pipeline.started_at, Some(at(11)));
        assert_eq!(pipeline.parent_pipeline.map(|p| p.idx), None);
    }

    forge.run_task(ForgeTask::UpdateUser { user: 5 }, GitlabResponse::User(gl_user(5)), at(4))
        .unwrap();
    let mut gl = gl_pipeline(50, 13, Some(5));
    gl.status = GitlabPipelineStatus::Success;
    gl.ref_ = Some("main".to_string());
    forge
        .run_task(
            ForgeTask::UpdatePipeline { project: 13, pipeline: 50 },
            GitlabResponse::Pipeline(gl),
            at(5),
        )
        .unwrap();
    assert_eq!(forge.storage.counts().pipelines, 1);
    let pipeline = forge.storage.lookup_pipeline(&idx).unwrap();
    assert_eq!(pipeline.user.map(|u| u.idx), Some(forge.storage.find_user(5).unwrap().idx));
    assert_eq!(pipeline.status, PipelineStatus::Success);
    // The ref stays what it was when the pipeline was first seen.
    assert_eq!(pipeline.refname.as_deref(), Some("refs/UNKNOWN"));
}

#[test]
fn stable_refname_of_large_ids() {
    let mut forge = forge();
    forge
        .run_task(
            ForgeTask::UpdateProject { project: 13 },
            GitlabResponse::Project(gl_project(13, None)),
            at(2),
        )
        .unwrap();
    for id in [0u64, 9, 10, 1234567890, u64::MAX] {
        forge
            .run_task(
                ForgeTask::UpdatePipeline { project: 13, pipeline: id },
                GitlabResponse::Pipeline(gl_pipeline(id, 13, None)),
                at(3),
            )
            .unwrap();
        let idx = forge.storage.find_pipeline(id).unwrap();
        let pipeline = forge.storage.lookup_pipeline(&idx).unwrap();
        assert_eq!(pipeline.stable_refname, Some(format!("refs/pipelines/{}", id)));
    }
}

#[test]
fn pipeline_schedule_update() {
    let mut forge = forge();
    let details = |active: bool| GitlabPipelineScheduleDetails {
        id: 8,
        description: "nightly".to_string(),
        ref_: "main".to_string(),
        variables: vec![
            GitlabPipelineVariable {
                variable_type: GitlabVariableType::EnvironmentVariable,
                key: "KEY".to_string(),
                value: "first".to_string(),
            },
            GitlabPipelineVariable {
                variable_type: GitlabVariableType::File,
                key: "OTHER".to_string(),
                value: "file".to_string(),
            },
            GitlabPipelineVariable {
                variable_type: GitlabVariableType::EnvironmentVariable,
                key: "KEY".to_string(),
                value: "second".to_string(),
            },
        ],
        created_at: at(1),
        updated_at: at(2),
        owner: GitlabOwner { id: 5 },
        active,
        next_run_at: Some(at(100)),
    };
    let outcome = forge
        .run_task(
            ForgeTask::UpdatePipelineSchedule { project: 13, schedule: 8 },
            GitlabResponse::PipelineSchedule(details(true)),
            at(3),
        )
        .unwrap();
    assert_eq!(
        outcome.additional_tasks,
        vec![
            ForgeTask::UpdateUser { user: 5 },
            ForgeTask::UpdateProject { project: 13 },
            ForgeTask::UpdatePipelineSchedule { project: 13, schedule: 8 },
        ]
    );
    forge.run_task(ForgeTask::UpdateUser { user: 5 }, GitlabResponse::User(gl_user(5)), at(4))
        .unwrap();
    forge
        .run_task(
            ForgeTask::UpdateProject { project: 13 },
            GitlabResponse::Project(gl_project(13, None)),
            at(5),
        )
        .unwrap();
    let outcome = forge
        .run_task(
            ForgeTask::UpdatePipelineSchedule { project: 13, schedule: 8 },
            GitlabResponse::PipelineSchedule(details(true)),
            at(6),
        )
        .unwrap();
    assert!(outcome.additional_tasks.is_empty());
    let idx = forge.storage.find_pipeline_schedule(8).unwrap();
    let schedule = forge.storage.lookup_pipeline_schedule(&idx).unwrap();
    assert_eq!(schedule.name, "nightly");
    assert_eq!(schedule.ref_, "main");
    assert!(schedule.active);
    assert_eq!(schedule.next_run, Some(at(100)));
    assert_eq!(schedule.variables.len(), 2);
    assert_eq!(schedule.variables.get("KEY").unwrap().value, "second");
    assert_eq!(schedule.variables.get("OTHER").unwrap().value, "file");
    assert!(schedule.variables.get("MISSING").is_none());
}

#[test]
fn runner_update() {
    let mut forge = forge();
    let details = GitlabRunnerDetails {
        id: 3,
        description: "a runner".to_string(),
        runner_type: GitlabRunnerType::Group,
        name: Some("gitlab-runner".to_string()),
        version: None,
        revision: Some("abcdef".to_string()),
        platform: None,
        architecture: Some("amd64".to_string()),
        tag_list: vec!["docker".to_string(), "linux".to_string()],
        run_untagged: true,
        access_level: GitlabRunnerAccessLevel::RefProtected,
        maintenance_note: Some("note".to_string()),
        contacted_at: Some(at(50)),
        paused: false,
        is_shared: true,
        online: None,
        locked: true,
        maximum_timeout: Some(3600),
    };
    let outcome = forge
        .run_task(ForgeTask::UpdateRunner { id: 3 }, GitlabResponse::Runner(details), at(1))
        .unwrap();
    assert!(outcome.additional_tasks.is_empty());
    let idx = forge.storage.find_runner(3).unwrap();
    let runner = forge.storage.lookup_runner(&idx).unwrap();
    assert_eq!(runner.runner_type, ci_monitor::data::RunnerType::Group);
    assert_eq!(runner.protection_level, ci_monitor::data::RunnerProtectionLevel::Protected);
    assert_eq!(runner.implementation, "gitlab-runner");
    assert_eq!(runner.version, "");
    assert_eq!(runner.revision, "abcdef");
    assert_eq!(runner.tags, vec!["docker".to_string(), "linux".to_string()]);
    assert!(runner.run_untagged);
    assert!(runner.shared);
    assert!(!runner.online);
    assert!(runner.locked);
    assert_eq!(runner.maximum_timeout, Some(3600));
    assert_eq!(runner.maintenance_note.as_deref(), Some("note"));
    assert_eq!(runner.instance.idx, 0);
    assert!(runner.projects.is_empty());
}

#[test]
fn discoveries() {
    let mut forge = forge();
    let outcome = forge
        .run_task(
            ForgeTask::DiscoverMergeRequests { project: 13 },
            GitlabResponse::MergeRequests(vec![
                GitlabMergeRequest { iid: 2 },
                GitlabMergeRequest { iid: 1 },
            ]),
            at(1),
        )
        .unwrap();
    assert_eq!(
        outcome.additional_tasks,
        vec![
            ForgeTask::UpdateMergeRequest { project: 13, merge_request: 2 },
            ForgeTask::UpdateMergeRequest { project: 13, merge_request: 1 },
        ]
    );
    let listed = || vec![GitlabPipeline { id: 50, project_id: 13 }, GitlabPipeline { id: 51, project_id: 14 }];
    for task in [
        ForgeTask::DiscoverPipelines { project: 13 },
        ForgeTask::DiscoverMergeRequestPipelines { project: 13, merge_request: 2 },
    ] {
        let outcome = forge.run_task(task, GitlabResponse::Pipelines(listed()), at(1)).unwrap();
        assert_eq!(
            outcome.additional_tasks,
            vec![
                ForgeTask::UpdatePipeline { project: 13, pipeline: 50 },
                ForgeTask::UpdatePipeline { project: 14, pipeline: 51 },
            ]
        );
    }
    let outcome = forge
        .run_task(
            ForgeTask::DiscoverJobs { project: 13, pipeline: 50 },
            GitlabResponse::Jobs(vec![GitlabJob { id: 100 }]),
            at(1),
        )
        .unwrap();
    assert_eq!(outcome.additional_tasks, vec![ForgeTask::UpdateJob { project: 13, job: 100 }]);
    let outcome = forge
        .run_task(
            ForgeTask::DiscoverPipelineSchedules { project: 13 },
            GitlabResponse::PipelineSchedules(vec![]),
            at(1),
        )
        .unwrap();
    assert!(outcome.additional_tasks.is_empty());
    assert_eq!(forge.storage.counts().instances, 1);
    assert!(forge.storage.clone().counts().pipelines == 0);
}

#[test]
fn unhandled_tasks_and_wrong_answers() {
    let mut forge = forge();
    let task = ForgeTask::DiscoverEnvironments { project: 13 };
    match GitlabForge::request_for(task.clone()) {
        Err(ForgeError::Unhandled { task: unhandled }) => assert_eq!(unhandled, task),
        other => panic!("unexpected outcome: {:?}", other),
    }
    match forge.run_task(task.clone(), GitlabResponse::User(gl_user(5)), at(1)) {
        Err(ForgeError::Unhandled { task: unhandled }) => assert_eq!(unhandled, task),
        other => panic!("unexpected outcome: {:?}", other),
    }
    match forge.run_task(
        ForgeTask::UpdateProject { project: 13 },
        GitlabResponse::User(gl_user(5)),
        at(1),
    ) {
        Err(ForgeError::Other { .. }) => {},
        other => panic!("unexpected outcome: {:?}", other),
    }
    assert_eq!(forge.storage.counts().users, 0);
    assert!(matches!(
        GitlabForge::request_for(ForgeTask::UpdateJob { project: 13, job: 100 }),
        Ok(GitlabRequest::Job { project: 13, job: 100 })
    ));
    assert!(matches!(
        GitlabForge::request_for(ForgeTask::DiscoverRunners),
        Ok(GitlabRequest::AllRunners)
    ));
    assert!(matches!(
        GitlabForge::request_for(ForgeTask::UpdatePipelineSchedule { project: 1, schedule: 2 }),
        Ok(GitlabRequest::PipelineSchedule { project: 1, id: 2 })
    ));
}

#[test]
fn client_failures_as_forge_errors() {
    let report = |failure| forge_error(failure, "details".to_string());
    assert!(matches!(report(ApiFailure::Auth), ForgeError::Auth { .. }));
    assert!(matches!(report(ApiFailure::Client), ForgeError::Connection { .. }));
    assert!(matches!(report(ApiFailure::Other), ForgeError::Other { .. }));
    for status in [401u16, 403, 404, 400, 499] {
        assert!(matches!(report(ApiFailure::Service { status }), ForgeError::Auth { .. }));
    }
    for status in [500u16, 502, 503, 599] {
        assert!(matches!(report(ApiFailure::Service { status }), ForgeError::Connection { .. }));
    }
    for status in [200u16, 302, 399, 600, 100] {
        assert!(matches!(report(ApiFailure::Service { status }), ForgeError::Other { .. }));
    }
    match report(ApiFailure::Service { status: 500 }) {
        ForgeError::Connection { details } => assert_eq!(details, "details"),
        other => panic!("unexpected error: {:?}", other),
    }
}
