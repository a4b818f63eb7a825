//! Build sessions: the fetch, build and deploy pipeline of one build, its
//! event journal, and the map of builds whose events can still be followed.
use vstd::prelude::*;
use vstd::string::*;
use std::collections::HashMap;
use crate::deploy::{next_state, DeployAction, DeployPhase, DeployReply, Deployer};
use crate::events::{event_type_spec, type_rank, EventType, ProvisionerEvent};
use crate::model::{error_message_spec, ExternalError, ProvisionerError};
use crate::naming::{image_name, image_name_spec, slug_label, slug_label_spec};

verus! {

broadcast use vstd::std_specs::hash::group_hash_axioms;

/// One journaled event: when it happened (microseconds since the Unix epoch,
/// UTC) and what happened, or the message of the error that ended the build.
#[derive(Debug)]
pub struct ProvisionerEvent2 {
    pub ts: i64,
    pub event: Result<ProvisionerEvent, String>,
}

impl ProvisionerEvent2 {
    pub fn make(event: Result<ProvisionerEvent, String>, ts: i64) -> (r: ProvisionerEvent2)
        ensures
            r.ts == ts,
            r.event == event,
    {
        ProvisionerEvent2 { ts, event }
    }
}

/// The `type` of a journaled event.
pub open spec fn entry_type(e: ProvisionerEvent2) -> EventType {
    match e.event {
        Ok(ev) => event_type_spec(ev),
        Err(_) => EventType::Error,
    }
}

/// The journal reads `git_clone* docker_build* deploy* error?`.
pub open spec fn journal_ordered(s: Seq<ProvisionerEvent2>) -> bool {
    &&& forall|i: int, j: int|
        #![trigger s[i], s[j]]
        0 <= i <= j < s.len() ==> type_rank(entry_type(s[i])) <= type_rank(entry_type(s[j]))
    &&& forall|i: int| 0 <= i < s.len() - 1 ==> !(entry_type(#[trigger] s[i]) is Error)
}

#[derive(PartialEq, Eq, Structural, Clone, Copy, Debug)]
pub enum BuildStage {
    /// Cloning and archiving the source.
    Fetching,
    /// Building the image.
    Building,
    Deploying,
    /// The pipeline has stopped; the build's end is still to be written.
    Finalizing,
    Ended,
}

/// The highest event type the journal may hold in a stage.
pub open spec fn stage_rank(s: BuildStage) -> nat {
    match s {
        BuildStage::Fetching => 0,
        BuildStage::Building => 1,
        BuildStage::Deploying => 2,
        BuildStage::Finalizing => 3,
        BuildStage::Ended => 3,
    }
}

/// The next thing the pipeline of a build asks its caller to do.
#[derive(Debug)]
pub enum SessionAction {
    /// Clone `git_uri` (depth 1) and archive its HEAD, reporting each output line.
    Fetch { git_uri: String },
    /// Build the archive into an image, reporting each progress record.
    BuildImage {
        tag: String,
        remove_intermediate: bool,
        force_remove: bool,
        label_key: String,
        label_value: String,
    },
    Deploy(DeployAction),
    /// Write the build's end time and close its event channel.
    Finalize { build_id: i32 },
    Nothing,
}

/// The state of one build.
#[derive(Debug)]
pub struct BuildSession {
    pub build_id: i32,
    pub app_id: i32,
    pub app_slug: String,
    pub git_uri: String,
    pub stage: BuildStage,
    pub deployer: Deployer,
    /// Where the deploy events start in the journal.
    pub deploy_start: usize,
    pub journal: Vec<ProvisionerEvent2>,
    pub ended_at: Option<i64>,
}

/// Journal entries for deploy events, all stamped `ts`.
pub open spec fn deploy_entries(evs: Seq<crate::events::ProvisionerDeployEvent>, ts: i64) -> Seq<
    ProvisionerEvent2,
> {
    evs.map_values(|e| deploy_entry(ts, e))
}

/// A journal entry for a deploy event.
pub open spec fn deploy_entry(ts: i64, e: crate::events::ProvisionerDeployEvent) -> ProvisionerEvent2 {
    ProvisionerEvent2 { ts, event: Ok(ProvisionerEvent::Deploy(e)) }
}

proof fn lemma_ordered_push(s: Seq<ProvisionerEvent2>, e: ProvisionerEvent2)
    requires
        journal_ordered(s),
        forall|i: int| 0 <= i < s.len() ==> type_rank(entry_type(#[trigger] s[i])) <= type_rank(entry_type(e)),
        forall|i: int| 0 <= i < s.len() ==> !(entry_type(#[trigger] s[i]) is Error),
    ensures
        journal_ordered(s.push(e)),
{
    let t = s.push(e);
    assert forall|i: int, j: int| 0 <= i <= j < t.len() implies type_rank(entry_type(t[i])) <= type_rank(
        entry_type(t[j]),
    ) by {
        if j < s.len() {
            assert(t[i] == s[i] && t[j] == s[j]);
        } else if i < s.len() {
            assert(t[i] == s[i]);
        }
    }
    assert forall|i: int| 0 <= i < t.len() - 1 implies !(entry_type(#[trigger] t[i]) is Error) by {
        assert(t[i] == s[i]);
    }
}

impl BuildSession {
    pub open spec fn wf(self) -> bool {
        &&& self.deployer.wf()
        &&& self.deployer.app_id == self.app_id
        &&& journal_ordered(self.journal@)
        &&& forall|i: int|
            0 <= i < self.journal@.len() ==> type_rank(entry_type(#[trigger] self.journal@[i]))
                <= stage_rank(self.stage)
        &&& (self.stage == BuildStage::Ended <==> self.ended_at is Some)
        &&& (self.stage == BuildStage::Fetching || self.stage == BuildStage::Building) ==> {
            &&& self.deployer.phase == DeployPhase::ReadApp
            &&& self.deployer.events@.len() == 1
        }
        &&& self.stage == BuildStage::Deploying ==> {
            &&& self.deploy_start + self.deployer.events@.len() == self.journal@.len()
            &&& self.deployer.phase != DeployPhase::Done
            &&& self.deployer.phase != DeployPhase::Failed
            &&& forall|k: int|
                0 <= k < self.deployer.events@.len() ==> (#[trigger] self.journal@[self.deploy_start
                    + k]).event == Ok::<ProvisionerEvent, String>(
                    ProvisionerEvent::Deploy(self.deployer.events@[k]),
                )
        }
    }

    /// Opens the session of build `build_id`, about to fetch `git_uri`.
    pub fn new(
        build_id: i32,
        app_id: i32,
        app_slug: String,
        git_uri: String,
        proxy_container: String,
        warm_up_millis: u64,
    ) -> (r: BuildSession)
        ensures
            r.wf(),
            r.build_id == build_id,
            r.app_id == app_id,
            r.app_slug == app_slug,
            r.git_uri == git_uri,
            r.stage == BuildStage::Fetching,
            r.journal@.len() == 0,
            r.deployer.phase == DeployPhase::ReadApp,
            r.deployer.proxy_container == proxy_container,
            r.deployer.warm_up_millis == warm_up_millis,
    {
        BuildSession {
            build_id,
            app_id,
            app_slug,
            git_uri,
            stage: BuildStage::Fetching,
            deployer: Deployer::new(app_id, proxy_container, warm_up_millis),
            deploy_start: 0,
            journal: Vec::new(),
            ended_at: None,
        }
    }

    fn record(&mut self, e: ProvisionerEvent2)
        requires
            old(self).wf(),
            old(self).stage != BuildStage::Finalizing,
            old(self).stage != BuildStage::Ended,
            old(self).stage != BuildStage::Deploying,
            type_rank(entry_type(e)) == stage_rank(old(self).stage),
        ensures
            final(self).wf(),
            final(self).journal@ == old(self).journal@.push(e),
            final(self).stage == old(self).stage,
            final(self).deployer == old(self).deployer,
            final(self).ended_at == old(self).ended_at,
            final(self).build_id == old(self).build_id,
            final(self).app_id == old(self).app_id,
    {
        proof {
            lemma_ordered_push(self.journal@, e);
        }
        self.journal.push(e);
    }

    /// Ends the pipeline with an `error` event carrying `message`.
    fn record_error(&mut self, ts: i64, message: String)
        requires
            old(self).deployer.wf(),
            old(self).deployer.app_id == old(self).app_id,
            journal_ordered(old(self).journal@),
            forall|i: int|
                0 <= i < old(self).journal@.len() ==> type_rank(entry_type(#[trigger] old(self).journal@[i])) <= 2,
            old(self).ended_at is None,
        ensures
            final(self).wf(),
            final(self).journal@ == old(self).journal@.push(
                ProvisionerEvent2 { ts, event: Err(message) },
            ),
            final(self).stage == BuildStage::Finalizing,
            final(self).deployer == old(self).deployer,
            final(self).build_id == old(self).build_id,
            final(self).app_id == old(self).app_id,
    {
        let e = ProvisionerEvent2 { ts, event: Err(message) };
        proof {
            lemma_ordered_push(self.journal@, e);
        }
        self.journal.push(e);
        self.stage = BuildStage::Finalizing;
    }

    fn journal_deploy_events(&mut self, ts: i64, from: usize)
        requires
            old(self).deployer.wf(),
            old(self).deployer.app_id == old(self).app_id,
            old(self).stage == BuildStage::Deploying,
            old(self).deployer.phase != DeployPhase::Done,
            old(self).deployer.phase != DeployPhase::Failed,
            old(self).ended_at is None,
            journal_ordered(old(self).journal@),
            forall|i: int|
                0 <= i < old(self).journal@.len() ==> type_rank(entry_type(#[trigger] old(self).journal@[i])) <= 2,
            from <= old(self).deployer.events@.len(),
            old(self).deploy_start + from == old(self).journal@.len(),
            forall|k: int|
                0 <= k < from ==> (#[trigger] old(self).journal@[old(self).deploy_start
                    + k]).event == Ok::<ProvisionerEvent, String>(
                    ProvisionerEvent::Deploy(old(self).deployer.events@[k]),
                ),
        ensures
            final(self).wf(),
            final(self).journal@ == old(self).journal@ + deploy_entries(
                old(self).deployer.events@.subrange(from as int, old(self).deployer.events@.len() as int),
                ts,
            ),
            final(self).deployer == old(self).deployer,
            final(self).stage == old(self).stage,
            final(self).deploy_start == old(self).deploy_start,
            final(self).build_id == old(self).build_id,
            final(self).app_id == old(self).app_id,
            final(self).ended_at == old(self).ended_at,
    {
        let n = self.deployer.events.len();
        let mut k: usize = from;
        let ghost added = deploy_entries(
            self.deployer.events@.subrange(from as int, n as int),
            ts,
        );
        while k < n
            invariant
                from <= k <= n,
                n == self.deployer.events@.len(),
                self.deployer == old(self).deployer,
                self.stage == old(self).stage,
                self.deploy_start == old(self).deploy_start,
                self.build_id == old(self).build_id,
                self.app_id == old(self).app_id,
                self.app_slug == old(self).app_slug,
                self.git_uri == old(self).git_uri,
                self.ended_at == old(self).ended_at,
                added == deploy_entries(self.deployer.events@.subrange(from as int, n as int), ts),
                self.journal@ == old(self).journal@ + added.take(k - from),
                self.deploy_start + k == self.journal@.len(),
                journal_ordered(self.journal@),
                forall|i: int|
                    0 <= i < self.journal@.len() ==> type_rank(entry_type(#[trigger] self.journal@[i])) <= 2,
                forall|j: int|
                    0 <= j < k ==> (#[trigger] self.journal@[self.deploy_start
                        + j]).event == Ok::<ProvisionerEvent, String>(
                        ProvisionerEvent::Deploy(self.deployer.events@[j]),
                    ),
            decreases n - k,
        {
            let e = ProvisionerEvent2 {
                ts,
                event: Ok(ProvisionerEvent::Deploy(self.deployer.events[k].copy())),
            };
            proof {
                lemma_ordered_push(self.journal@, e);
                assert(added[k - from] == e);
            }
            let ghost before = self.journal@;
            self.journal.push(e);
            proof {
                assert(self.journal@ =~= old(self).journal@ + added.take(k + 1 - from));
                assert forall|j: int| 0 <= j < k + 1 implies (#[trigger] self.journal@[self.deploy_start
                    + j]).event == Ok::<ProvisionerEvent, String>(
                    ProvisionerEvent::Deploy(self.deployer.events@[j]),
                ) by {
                    if j < k {
                        assert(self.journal@[self.deploy_start + j] == before[self.deploy_start + j]);
                    }
                }
            }
            k = k + 1;
        }
        assert(added.take(n - from) =~= added);
    }

    /// Journals a line of git output; ignored outside the fetch stage.
    pub fn record_git_line(&mut self, ts: i64, line: String) -> (accepted: bool)
        requires
            old(self).wf(),
        ensures
            final(self).wf(),
            accepted == (old(self).stage == BuildStage::Fetching),
            accepted ==> final(self).journal@ == old(self).journal@.push(
                ProvisionerEvent2 { ts, event: Ok(ProvisionerEvent::GitClone(line)) },
            ),
            !accepted ==> *final(self) == *old(self),
            final(self).stage == old(self).stage,
    {
        if self.stage == BuildStage::Fetching {
            self.record(ProvisionerEvent2 { ts, event: Ok(ProvisionerEvent::GitClone(line)) });
            true
        } else {
            false
        }
    }

    /// Journals an image build progress record (its JSON text); ignored
    /// outside the build stage.
    pub fn record_build_chunk(&mut self, ts: i64, chunk: String) -> (accepted: bool)
        requires
            old(self).wf(),
        ensures
            final(self).wf(),
            accepted == (old(self).stage == BuildStage::Building),
            accepted ==> final(self).journal@ == old(self).journal@.push(
                ProvisionerEvent2 { ts, event: Ok(ProvisionerEvent::DockerBuild(chunk)) },
            ),
            !accepted ==> *final(self) == *old(self),
            final(self).stage == old(self).stage,
    {
        if self.stage == BuildStage::Building {
            self.record(ProvisionerEvent2 { ts, event: Ok(ProvisionerEvent::DockerBuild(chunk)) });
            true
        } else {
            false
        }
    }

    /// The fetch has ended: on success the image build comes next; on failure
    /// the build ends with an `error` event.
    pub fn fetch_finished(&mut self, ts: i64, result: Result<(), ProvisionerError>)
        requires
            old(self).wf(),
        ensures
            final(self).wf(),
            old(self).stage != BuildStage::Fetching ==> *final(self) == *old(self),
            old(self).stage == BuildStage::Fetching ==> match result {
                Ok(_) => {
                    &&& final(self).stage == BuildStage::Building
                    &&& final(self).journal@ == old(self).journal@
                },
                Err(e) => {
                    &&& final(self).stage == BuildStage::Finalizing
                    &&& final(self).journal@.len() == old(self).journal@.len() + 1
                    &&& final(self).journal@.drop_last() == old(self).journal@
                    &&& final(self).journal@.last().ts == ts
                    &&& final(self).journal@.last().event matches Err(m) && m@
                        == error_message_spec(e)
                },
            },
    {
        if self.stage != BuildStage::Fetching {
            return;
        }
        match result {
            Ok(_) => {
                self.stage = BuildStage::Building;
            },
            Err(e) => {
                let m = e.message();
                self.record_error(ts, m);
                assert(self.journal@.drop_last() =~= old(self).journal@);
            },
        }
    }

    /// The image build has ended: on success the deploy starts and its first
    /// event is journaled; on failure the build ends with an `error` event.
    pub fn build_finished(&mut self, ts: i64, result: Result<(), ProvisionerError>)
        requires
            old(self).wf(),
        ensures
            final(self).wf(),
            old(self).stage != BuildStage::Building ==> *final(self) == *old(self),
            old(self).stage == BuildStage::Building ==> match result {
                Ok(_) => {
                    &&& final(self).stage == BuildStage::Deploying
                    &&& final(self).deployer == old(self).deployer
                    &&& final(self).journal@ == old(self).journal@ + old(self).deployer.events@.map_values(
                        |e| deploy_entry(ts, e),
                    )
                },
                Err(e) => {
                    &&& final(self).stage == BuildStage::Finalizing
                    &&& final(self).journal@.len() == old(self).journal@.len() + 1
                    &&& final(self).journal@.drop_last() == old(self).journal@
                    &&& final(self).journal@.last().ts == ts
                    &&& final(self).journal@.last().event matches Err(m) && m@
                        == error_message_spec(e)
                },
            },
    {
        if self.stage != BuildStage::Building {
            return;
        }
        match result {
            Ok(_) => {
                self.stage = BuildStage::Deploying;
                self.deploy_start = self.journal.len();
                self.journal_deploy_events(ts, 0);
                assert(old(self).deployer.events@.subrange(0, 1) =~= old(self).deployer.events@);
            },
            Err(e) => {
                let m = e.message();
                self.record_error(ts, m);
                assert(self.journal@.drop_last() =~= old(self).journal@);
            },
        }
    }

    /// Moves the deploy on the outcome of the call it asked for, journaling
    /// the events it records. When the deploy ends the pipeline stops; a failed
    /// deploy adds an `error` event with the failure's message.
    pub fn deploy_step(&mut self, ts: i64, o: Result<DeployReply, ExternalError>)
        requires
            old(self).wf(),
        ensures
            final(self).wf(),
            old(self).stage != BuildStage::Deploying ==> *final(self) == *old(self),
            old(self).stage == BuildStage::Deploying ==> {
                let added = deploy_entries(
                    final(self).deployer.events@.subrange(
                        old(self).deployer.events@.len() as int,
                        final(self).deployer.events@.len() as int,
                    ),
                    ts,
                );
                &&& next_state(old(self).deployer, o, final(self).deployer)
                &&& final(self).journal@.take((old(self).journal@.len() + added.len()) as int)
                    == old(self).journal@ + added
                &&& final(self).deployer.phase == DeployPhase::Done ==> {
                    &&& final(self).stage == BuildStage::Finalizing
                    &&& final(self).journal@.len() == old(self).journal@.len() + added.len()
                }
                &&& final(self).deployer.phase == DeployPhase::Failed ==> {
                    &&& final(self).stage == BuildStage::Finalizing
                    &&& final(self).journal@.len() == old(self).journal@.len() + added.len() + 1
                    &&& final(self).journal@.last().ts == ts
                    &&& final(self).journal@.last().event matches Err(m) && m@
                        == error_message_spec(final(self).deployer.error.unwrap())
                }
                &&& final(self).deployer.phase != DeployPhase::Done
                    && final(self).deployer.phase != DeployPhase::Failed ==> {
                    &&& final(self).stage == BuildStage::Deploying
                    &&& final(self).journal@.len() == old(self).journal@.len() + added.len()
                }
            },
    {
        if self.stage != BuildStage::Deploying {
            return;
        }
        let from = self.deployer.events.len();
        self.deployer.step(o);
        proof {
            assert forall|k: int| 0 <= k < from implies (#[trigger] self.journal@[self.deploy_start
                + k]).event == Ok::<ProvisionerEvent, String>(
                ProvisionerEvent::Deploy(self.deployer.events@[k]),
            ) by {
                assert(self.deployer.events@[k] == self.deployer.events@.take(from as int)[k]);
            }
        }
        if self.deployer.phase == DeployPhase::Done || self.deployer.phase == DeployPhase::Failed {
            // journal what the last step recorded while the stage still admits deploy events
            let ghost d = self.deployer;
            let n = self.deployer.events.len();
            let ghost before = self.journal@;
            let mut k: usize = from;
            while k < n
                invariant
                    from <= k <= n,
                    n == self.deployer.events@.len(),
                    self.deployer == d,
                    d.app_id == self.app_id,
                    d.wf(),
                    self.app_id == old(self).app_id,
                    self.build_id == old(self).build_id,
                    self.stage == BuildStage::Deploying,
                    self.ended_at is None,
                    self.journal@ == before + deploy_entries(
                        self.deployer.events@.subrange(from as int, k as int),
                        ts,
                    ),
                    journal_ordered(self.journal@),
                    forall|i: int|
                        0 <= i < self.journal@.len() ==> type_rank(
                            entry_type(#[trigger] self.journal@[i]),
                        ) <= 2,
                decreases n - k,
            {
                let e = ProvisionerEvent2 {
                    ts,
                    event: Ok(ProvisionerEvent::Deploy(self.deployer.events[k].copy())),
                };
                proof {
                    lemma_ordered_push(self.journal@, e);
                }
                self.journal.push(e);
                proof {
                    assert(deploy_entries(self.deployer.events@.subrange(from as int, k + 1), ts)
                        =~= deploy_entries(self.deployer.events@.subrange(from as int, k as int), ts).push(e));
                }
                k = k + 1;
            }
            let ghost j = self.journal@;
            if self.deployer.phase == DeployPhase::Failed {
                let message = self.deployer.error.as_ref().unwrap().message();
                self.record_error(ts, message);
                assert(self.journal@.take(j.len() as int) =~= j);
            } else {
                self.stage = BuildStage::Finalizing;
                assert(self.journal@.take(j.len() as int) =~= j);
            }
        } else {
            self.journal_deploy_events(ts, from);
            assert(self.journal@.take(self.journal@.len() as int) =~= self.journal@);
        }
    }

    /// The next thing the pipeline asks for.
    pub fn action(&self) -> (r: SessionAction)
        requires
            self.wf(),
        ensures
            match self.stage {
                BuildStage::Fetching => r == SessionAction::Fetch { git_uri: self.git_uri },
                BuildStage::Building => r matches SessionAction::BuildImage {
                    tag,
                    remove_intermediate,
                    force_remove,
                    label_key,
                    label_value,
                } && tag@ == image_name_spec(self.app_id as int) && remove_intermediate
                    && force_remove && label_key@ == slug_label_spec() && label_value
                    == self.app_slug,
                BuildStage::Deploying => r matches SessionAction::Deploy(a) && self.deployer.action_of(a),
                BuildStage::Finalizing => r == SessionAction::Finalize { build_id: self.build_id },
                BuildStage::Ended => r is Nothing,
            },
    {
        match self.stage {
            BuildStage::Fetching => SessionAction::Fetch { git_uri: self.git_uri.clone() },
            BuildStage::Building => SessionAction::BuildImage {
                tag: image_name(self.app_id),
                remove_intermediate: true,
                force_remove: true,
                label_key: slug_label(),
                label_value: self.app_slug.clone(),
            },
            BuildStage::Deploying => SessionAction::Deploy(self.deployer.action()),
            BuildStage::Finalizing => SessionAction::Finalize { build_id: self.build_id },
            BuildStage::Ended => SessionAction::Nothing,
        }
    }
}

/// The builds whose events can still be followed live, each with its event
/// channel.
#[derive(Debug)]
pub struct ProvisionerManager<T> {
    pub event_channels: HashMap<i32, T>,
}

impl<T> ProvisionerManager<T> {
    pub open spec fn channels(&self) -> Map<i32, T> {
        self.event_channels@
    }

    pub fn new() -> (r: ProvisionerManager<T>)
        ensures
            r.channels() == Map::<i32, T>::empty(),
    {
        ProvisionerManager { event_channels: HashMap::new() }
    }

    /// Makes the events of `build_id` followable through `channel`.
    pub fn register(&mut self, build_id: i32, channel: T)
        ensures
            final(self).channels() == old(self).channels().insert(build_id, channel),
    {
        self.event_channels.insert(build_id, channel);
    }

    /// The channel of a build in progress; `None` once it has ended (its
    /// events are then read from the journal).
    pub fn receiver_for_build(&self, build_id: i32) -> (r: Option<&T>)
        ensures
            r is Some <==> self.channels().contains_key(build_id),
            r matches Some(c) ==> *c == self.channels()[build_id],
    {
        self.event_channels.get(&build_id)
    }

    /// Ends a build whose pipeline has stopped: records its end time and
    /// drops its channel from the map, handing it back to be closed.
    pub fn finish_build(&mut self, session: &mut BuildSession, ended_at: i64) -> (r: Option<T>)
        requires
            old(session).wf(),
            old(session).stage == BuildStage::Finalizing,
        ensures
            final(session).wf(),
            final(session).stage == BuildStage::Ended,
            final(session).ended_at == Some(ended_at),
            final(session).journal@ == old(session).journal@,
            final(session).build_id == old(session).build_id,
            final(self).channels() == old(self).channels().remove(old(session).build_id),
            !final(self).channels().contains_key(old(session).build_id),
            r is Some <==> old(self).channels().contains_key(old(session).build_id),
            r matches Some(c) ==> c == old(self).channels()[old(session).build_id],
    {
        session.stage = BuildStage::Ended;
        session.ended_at = Some(ended_at);
        self.event_channels.remove(&session.build_id)
    }
}

/// A build's journal reads `git_clone* docker_build* deploy* error?`, and its
/// deploy events are exactly the ones the deploy recorded, in the same order.
pub proof fn lemma_journal_order(s: BuildSession)
    requires
        s.wf(),
    ensures
        forall|i: int, j: int|
            #![trigger s.journal@[i], s.journal@[j]]
            0 <= i <= j < s.journal@.len() ==> type_rank(entry_type(s.journal@[i])) <= type_rank(
                entry_type(s.journal@[j]),
            ),
        forall|i: int|
            0 <= i < s.journal@.len() && entry_type(#[trigger] s.journal@[i]) is Error ==> i
                == s.journal@.len() - 1,
        s.stage == BuildStage::Deploying ==> forall|k: int|
            0 <= k < s.deployer.events@.len() ==> (#[trigger] s.journal@[s.deploy_start + k]).event
                == Ok::<ProvisionerEvent, String>(ProvisionerEvent::Deploy(s.deployer.events@[k])),
{
}

} // verus!
