//! The transcription pipeline run when a recording is stopped.
//!
//! [`Recorder::stop_and_transcribe`] opens a [`TranscriptionJob`] and says what
//! to do first. The caller performs each [`JobCommand`] and feeds its outcome
//! back as a [`JobEvent`] through [`TranscriptionJob::advance`], which answers
//! with the next [`JobStep`], until a `Finish` command carries the result.
//! Before the command, a step may carry a notice for the user, ask for the
//! recorded audio to be discarded, and announce a new recorder state, in that
//! order.

use vstd::prelude::*;
use crate::quota::{CheckResult, QuotaStatus};
use crate::recorder::{
    not_recording_message, quota_exhausted_message, quota_exhausted_text, Recorder,
    RecordingState, TranscribeMode,
};
use crate::settings::Settings;

verus! {

/// Name of the temporary recording, in the application's directory.
pub const TEMP_AUDIO_FILE_NAME: &'static str = "temp_recording.wav";

/// A recording to send to the transcription service.
#[derive(Debug)]
pub struct TranscriptionRequest {
    /// The service's API key.
    pub api_key: String,
    /// Name of the recording's file in the application's directory.
    pub audio_file: String,
    /// Language of the speech.
    pub language: String,
    /// Transcription model.
    pub model: String,
    /// Words that the transcription should expect.
    pub vocabulary: String,
}

/// A note to store in the database.
#[derive(Debug)]
pub struct NoteSubmission {
    /// URL of the database project.
    pub supabase_url: String,
    /// Anonymous key of the database project.
    pub anon_key: String,
    /// The cleaned transcript.
    pub transcript: String,
    /// The `source` label of the mode the note was taken in.
    pub source: String,
    /// Whether the active application's context is captured and stored with it.
    pub with_context: bool,
}

/// Outside work that the pipeline asks for.
#[derive(Debug)]
pub enum JobCommand {
    /// Stop the audio capture and save the recording to the temporary file.
    SaveAudio,
    /// Count the request against the day's quota (load, decide, save).
    CheckQuota,
    /// Send the recording to the transcription service.
    Transcribe(TranscriptionRequest),
    /// Clean up the raw transcript.
    Clean(String),
    /// Insert the note in the database.
    InsertNote(NoteSubmission),
    /// Paste the text into the active application.
    Paste(String),
    /// The pipeline is over; this is its result.
    Finish(Result<String, String>),
}

/// Something to tell the user.
#[derive(Debug)]
pub enum JobNotice {
    /// The quota's warning threshold has just been crossed.
    QuotaWarning(QuotaStatus),
    /// The day's quota is used up.
    QuotaBlocked(QuotaStatus),
    /// The text was pasted.
    PasteDone(String),
    /// Pasting failed, with this error.
    PasteFailed(String),
}

/// What to do after an event: in order, tell the user (`notice`), delete the
/// temporary recording (`discard_audio`), announce the recorder's new state
/// (`announce`), then carry out `command`.
#[derive(Debug)]
pub struct JobStep {
    pub notice: Option<JobNotice>,
    pub discard_audio: bool,
    pub announce: Option<RecordingState>,
    pub command: JobCommand,
}

/// The outcome of a command, handed back to the pipeline.
#[derive(Debug)]
pub enum JobEvent {
    AudioSaved(Result<(), String>),
    QuotaChecked(CheckResult),
    Transcribed(Result<String, String>),
    Cleaned(String),
    NoteInserted(Result<(), String>),
    Pasted(Result<(), String>),
}

/// Where a pipeline stands: which outcome it waits for.
#[derive(Debug)]
pub enum JobStage {
    AwaitingAudio,
    AwaitingQuota,
    AwaitingTranscript,
    AwaitingCleanup,
    /// Waiting for the database insertion of this cleaned text.
    AwaitingInsert(String),
    /// Waiting for the paste of this cleaned text.
    AwaitingPaste(String),
    Finished,
}

/// One run of the transcription pipeline.
pub struct TranscriptionJob {
    mode: TranscribeMode,
    settings: Settings,
    stage: JobStage,
}

impl JobStep {
    /// No notice, no discarding, no announcement.
    pub open spec fn quiet(self) -> bool {
        &&& self.notice is None
        &&& !self.discard_audio
        &&& self.announce is None
    }

    /// A quiet step that only carries out `command`.
    pub open spec fn only(self, command: JobCommand) -> bool {
        &&& self.quiet()
        &&& self.command == command
    }

    /// The step ends the pipeline with this result (texts taken by their characters).
    pub open spec fn finishes(self, outcome: Result<Seq<char>, Seq<char>>) -> bool {
        match self.command {
            JobCommand::Finish(Ok(t)) => outcome == Ok::<Seq<char>, Seq<char>>(t@),
            JobCommand::Finish(Err(e)) => outcome == Err::<Seq<char>, Seq<char>>(e@),
            _ => false,
        }
    }

    fn plain(command: JobCommand) -> (r: JobStep)
        ensures
            r.only(command),
    {
        JobStep { notice: None, discard_audio: false, announce: None, command }
    }
}

impl TranscriptionJob {
    /// The stage the job stands at.
    pub closed spec fn stage(self) -> JobStage {
        self.stage
    }

    /// The mode the recording is transcribed in.
    pub closed spec fn mode(self) -> TranscribeMode {
        self.mode
    }

    /// The settings the job runs with.
    pub closed spec fn settings(self) -> Settings {
        self.settings
    }

    /// `command` sends the recording to the transcription service with the
    /// job's API key, language, model and vocabulary.
    pub open spec fn asks_transcription(self, command: JobCommand) -> bool {
        &&& command matches JobCommand::Transcribe(r)
        &&& r.api_key == self.settings().groq_api_key
        &&& r.audio_file@ == TEMP_AUDIO_FILE_NAME@
        &&& r.language == self.settings().language
        &&& r.model == self.settings().whisper_model
        &&& r.vocabulary == self.settings().vocabulary
    }

    /// Whether the job waits for this kind of outcome.
    pub open spec fn awaits(self, event: JobEvent) -> bool {
        match self.stage() {
            JobStage::AwaitingAudio => event is AudioSaved,
            JobStage::AwaitingQuota => event is QuotaChecked,
            JobStage::AwaitingTranscript => event is Transcribed,
            JobStage::AwaitingCleanup => event is Cleaned,
            JobStage::AwaitingInsert(_) => event is NoteInserted,
            JobStage::AwaitingPaste(_) => event is Pasted,
            JobStage::Finished => false,
        }
    }

    /// The stage the job moves to on `event`.
    pub open spec fn successor(self, event: JobEvent) -> JobStage {
        match event {
            JobEvent::AudioSaved(Ok(_)) => JobStage::AwaitingQuota,
            JobEvent::AudioSaved(Err(_)) => JobStage::Finished,
            JobEvent::QuotaChecked(CheckResult::Blocked(_)) => JobStage::Finished,
            JobEvent::QuotaChecked(_) => JobStage::AwaitingTranscript,
            JobEvent::Transcribed(Ok(_)) => JobStage::AwaitingCleanup,
            JobEvent::Transcribed(Err(_)) => JobStage::Finished,
            JobEvent::Cleaned(c) => if c@.len() == 0 {
                JobStage::Finished
            } else if self.mode() is DbPaste {
                JobStage::AwaitingInsert(c)
            } else {
                JobStage::AwaitingPaste(c)
            },
            JobEvent::NoteInserted(_) => match self.stage() {
                JobStage::AwaitingInsert(c) => JobStage::AwaitingPaste(c),
                _ => JobStage::Finished,
            },
            JobEvent::Pasted(_) => JobStage::Finished,
        }
    }

    /// How the job answers `event`.
    ///
    /// - A failed save of the audio ends the job with its error, the recorder
    ///   left transcribing; a saved one leads to the quota check.
    /// - A blocked quota tells the user, discards the audio, releases the
    ///   recorder and ends with the quota error; otherwise the recording is
    ///   transcribed, after a warning to the user if the threshold was just crossed.
    /// - Once transcribed the audio is discarded; a failed transcription releases
    ///   the recorder and ends with its error, a transcript is cleaned.
    /// - An empty cleaned text releases the recorder and ends with an empty result.
    ///   Otherwise the text is inserted in the database first in `DbPaste`
    ///   mode, whatever comes of the insertion, then pasted.
    /// - After pasting, successful or not, the user is told, the recorder is
    ///   released and the job ends with the cleaned text.
    pub open spec fn reacts(self, event: JobEvent, step: JobStep) -> bool {
        match event {
            JobEvent::AudioSaved(Ok(_)) => step.only(JobCommand::CheckQuota),
            JobEvent::AudioSaved(Err(e)) => step.quiet() && step.finishes(Err(e@)),
            JobEvent::QuotaChecked(CheckResult::Allowed) => {
                &&& step.quiet()
                &&& self.asks_transcription(step.command)
            },
            JobEvent::QuotaChecked(CheckResult::WarnCrossed(s)) => {
                &&& step.notice == Some(JobNotice::QuotaWarning(s))
                &&& !step.discard_audio
                &&& step.announce is None
                &&& self.asks_transcription(step.command)
            },
            JobEvent::QuotaChecked(CheckResult::Blocked(s)) => {
                &&& step.notice == Some(JobNotice::QuotaBlocked(s))
                &&& step.discard_audio
                &&& step.announce == Some(RecordingState::Ready)
                &&& step.finishes(Err(quota_exhausted_message(s.used, s.limit)))
            },
            JobEvent::Transcribed(Ok(t)) => {
                &&& step.notice is None
                &&& step.discard_audio
                &&& step.announce is None
                &&& step.command == JobCommand::Clean(t)
            },
            JobEvent::Transcribed(Err(e)) => {
                &&& step.notice is None
                &&& step.discard_audio
                &&& step.announce == Some(RecordingState::Ready)
                &&& step.finishes(Err(e@))
            },
            JobEvent::Cleaned(c) => if c@.len() == 0 {
                &&& step.notice is None
                &&& !step.discard_audio
                &&& step.announce == Some(RecordingState::Ready)
                &&& step.finishes(Ok(Seq::empty()))
            } else if self.mode() is DbPaste {
                &&& step.quiet()
                &&& step.command matches JobCommand::InsertNote(n)
                &&& n.supabase_url == self.settings().supabase_url
                &&& n.anon_key == self.settings().supabase_anon_key
                &&& n.transcript == c
                &&& n.source@ == self.mode().label()
                &&& n.with_context == self.settings().capture_context
            } else {
                step.only(JobCommand::Paste(c))
            },
            JobEvent::NoteInserted(_) => match self.stage() {
                JobStage::AwaitingInsert(c) => step.only(JobCommand::Paste(c)),
                _ => false,
            },
            JobEvent::Pasted(r) => match self.stage() {
                JobStage::AwaitingPaste(c) => {
                    &&& step.notice == Some(
                        match r {
                            Ok(_) => JobNotice::PasteDone(c),
                            Err(e) => JobNotice::PasteFailed(e),
                        },
                    )
                    &&& !step.discard_audio
                    &&& step.announce == Some(RecordingState::Ready)
                    &&& step.finishes(Ok(c@))
                },
                _ => false,
            },
        }
    }

    /// The transcription request of the job's settings.
    fn transcription_request(&self) -> (r: TranscriptionRequest)
        ensures
            self.asks_transcription(JobCommand::Transcribe(r)),
            r.api_key == self.settings.groq_api_key,
            r.audio_file@ == TEMP_AUDIO_FILE_NAME@,
            r.language == self.settings.language,
            r.model == self.settings.whisper_model,
            r.vocabulary == self.settings.vocabulary,
    {
        TranscriptionRequest {
            api_key: self.settings.groq_api_key.clone(),
            audio_file: String::from_str(TEMP_AUDIO_FILE_NAME),
            language: self.settings.language.clone(),
            model: self.settings.whisper_model.clone(),
            vocabulary: self.settings.vocabulary.clone(),
        }
    }

    /// Whether the job waits for this kind of outcome.
    pub fn awaits_event(&self, event: &JobEvent) -> (b: bool)
        ensures
            b == self.awaits(*event),
    {
        match self.stage {
            JobStage::AwaitingAudio => matches!(event, JobEvent::AudioSaved(_)),
            JobStage::AwaitingQuota => matches!(event, JobEvent::QuotaChecked(_)),
            JobStage::AwaitingTranscript => matches!(event, JobEvent::Transcribed(_)),
            JobStage::AwaitingCleanup => matches!(event, JobEvent::Cleaned(_)),
            JobStage::AwaitingInsert(_) => matches!(event, JobEvent::NoteInserted(_)),
            JobStage::AwaitingPaste(_) => matches!(event, JobEvent::Pasted(_)),
            JobStage::Finished => false,
        }
    }

    /// Feeds the outcome of the last command to the job and returns the next
    /// step (see [`TranscriptionJob::reacts`]). A step that announces `Ready`
    /// puts the recorder back to `Ready`; no other step touches the recorder.
    pub fn advance(&mut self, recorder: &mut Recorder, event: JobEvent) -> (step: JobStep)
        requires
            old(self).awaits(event),
        ensures
            old(self).reacts(event, step),
            final(self).stage() == old(self).successor(event),
            final(self).mode() == old(self).mode(),
            final(self).settings() == old(self).settings(),
            step.announce == Some(RecordingState::Ready) ==> final(recorder)@ == RecordingState::Ready,
            step.announce != Some(RecordingState::Ready) ==> final(recorder)@ == old(recorder)@,
            step.command matches JobCommand::Transcribe(r) ==> {
                &&& r.api_key == old(self).settings().groq_api_key
                &&& r.audio_file@ == TEMP_AUDIO_FILE_NAME@
                &&& r.language == old(self).settings().language
                &&& r.model == old(self).settings().whisper_model
                &&& r.vocabulary == old(self).settings().vocabulary
            },
            event matches JobEvent::Transcribed(Ok(t)) ==> (step.command matches JobCommand::Clean(
                u,
            ) && u == t),
            step.command matches JobCommand::InsertNote(n) ==> {
                &&& event matches JobEvent::Cleaned(c) && n.transcript == c
                &&& n.transcript@.len() > 0
                &&& n.source@ == old(self).mode().label()
                &&& n.supabase_url == old(self).settings().supabase_url
                &&& n.anon_key == old(self).settings().supabase_anon_key
                &&& n.with_context == old(self).settings().capture_context
            },
            event matches JobEvent::Cleaned(c) ==> (c@.len() > 0 && old(self).mode()
                is PasteOnly ==> step.command == JobCommand::Paste(c)),
            old(self).stage() matches JobStage::AwaitingInsert(c) ==> step.command
                == JobCommand::Paste(c),
            old(self).stage() matches JobStage::AwaitingPaste(c) ==> (step.command matches JobCommand::Finish(
                res,
            ) && res == Ok::<String, String>(c)),
    {
        let mut stage = JobStage::Finished;
        std::mem::swap(&mut stage, &mut self.stage);
        match event {
            JobEvent::AudioSaved(Ok(())) => {
                self.stage = JobStage::AwaitingQuota;
                JobStep::plain(JobCommand::CheckQuota)
            },
            JobEvent::AudioSaved(Err(e)) => JobStep::plain(JobCommand::Finish(Err(e))),
            JobEvent::QuotaChecked(CheckResult::Allowed) => {
                self.stage = JobStage::AwaitingTranscript;
                JobStep::plain(JobCommand::Transcribe(self.transcription_request()))
            },
            JobEvent::QuotaChecked(CheckResult::WarnCrossed(s)) => {
                self.stage = JobStage::AwaitingTranscript;
                JobStep {
                    notice: Some(JobNotice::QuotaWarning(s)),
                    discard_audio: false,
                    announce: None,
                    command: JobCommand::Transcribe(self.transcription_request()),
                }
            },
            JobEvent::QuotaChecked(CheckResult::Blocked(s)) => {
                let message = quota_exhausted_text(s.used, s.limit);
                recorder.set_state(RecordingState::Ready);
                JobStep {
                    notice: Some(JobNotice::QuotaBlocked(s)),
                    discard_audio: true,
                    announce: Some(RecordingState::Ready),
                    command: JobCommand::Finish(Err(message)),
                }
            },
            JobEvent::Transcribed(Ok(t)) => {
                self.stage = JobStage::AwaitingCleanup;
                JobStep {
                    notice: None,
                    discard_audio: true,
                    announce: None,
                    command: JobCommand::Clean(t),
                }
            },
            JobEvent::Transcribed(Err(e)) => {
                recorder.set_state(RecordingState::Ready);
                JobStep {
                    notice: None,
                    discard_audio: true,
                    announce: Some(RecordingState::Ready),
                    command: JobCommand::Finish(Err(e)),
                }
            },
            JobEvent::Cleaned(c) => {
                if c.as_str().is_empty() {
                    recorder.set_state(RecordingState::Ready);
                    JobStep {
                        notice: None,
                        discard_audio: false,
                        announce: Some(RecordingState::Ready),
                        command: JobCommand::Finish(Ok(String::new())),
                    }
                } else if self.mode.save_to_db() {
                    self.stage = JobStage::AwaitingInsert(c.clone());
                    let note = NoteSubmission {
                        supabase_url: self.settings.supabase_url.clone(),
                        anon_key: self.settings.supabase_anon_key.clone(),
                        transcript: c,
                        source: String::from_str(self.mode.source_label()),
                        with_context: self.settings.capture_context,
                    };
                    JobStep::plain(JobCommand::InsertNote(note))
                } else {
                    self.stage = JobStage::AwaitingPaste(c.clone());
                    JobStep::plain(JobCommand::Paste(c))
                }
            },
            JobEvent::NoteInserted(_) => {
                match stage {
                    JobStage::AwaitingInsert(c) => {
                        self.stage = JobStage::AwaitingPaste(c.clone());
                        JobStep::plain(JobCommand::Paste(c))
                    },
                    _ => {
                        proof {
                            assert(false);
                        }
                        JobStep::plain(JobCommand::CheckQuota)
                    },
                }
            },
            JobEvent::Pasted(r) => {
                match stage {
                    JobStage::AwaitingPaste(c) => {
                        let notice = match r {
                            Ok(()) => JobNotice::PasteDone(c.clone()),
                            Err(e) => JobNotice::PasteFailed(e),
                        };
                        recorder.set_state(RecordingState::Ready);
                        JobStep {
                            notice: Some(notice),
                            discard_audio: false,
                            announce: Some(RecordingState::Ready),
                            command: JobCommand::Finish(Ok(c)),
                        }
                    },
                    _ => {
                        proof {
                            assert(false);
                        }
                        JobStep::plain(JobCommand::CheckQuota)
                    },
                }
            },
        }
    }
}

impl Recorder {
    /// Stops the recording and opens the transcription job. Only a recording
    /// recorder stops: otherwise the job is over at once, with the error that
    /// nothing is being recorded, and the recorder is left as it is. A recording
    /// recorder turns to transcribing, which is announced, and the audio is to
    /// be saved first. The job runs with `settings`: the transcription service's
    /// key, language, model and vocabulary, the database's URL and key, and
    /// whether the active application is recorded with a note.
    pub fn stop_and_transcribe(&mut self, mode: TranscribeMode, settings: &Settings) -> (r: (
        TranscriptionJob,
        JobStep,
    ))
        ensures
            r.0.mode() == mode,
            r.0.settings() == *settings,
            old(self)@ != RecordingState::Recording ==> {
                &&& final(self)@ == old(self)@
                &&& r.0.stage() is Finished
                &&& r.1.quiet()
                &&& r.1.finishes(Err(not_recording_message()))
            },
            old(self)@ == RecordingState::Recording ==> {
                &&& final(self)@ == RecordingState::Transcribing
                &&& r.0.stage() is AwaitingAudio
                &&& r.1.notice is None
                &&& !r.1.discard_audio
                &&& r.1.announce == Some(RecordingState::Transcribing)
                &&& r.1.command is SaveAudio
            },
    {
        if self.get_state() != RecordingState::Recording {
            let job = TranscriptionJob { mode, settings: settings.clone(), stage: JobStage::Finished };
            let step = JobStep::plain(
                JobCommand::Finish(Err(String::from_str("Not currently recording"))),
            );
            return (job, step);
        }
        self.set_state(RecordingState::Transcribing);
        let job = TranscriptionJob {
            mode,
            settings: settings.clone(),
            stage: JobStage::AwaitingAudio,
        };
        let step = JobStep {
            notice: None,
            discard_audio: false,
            announce: Some(RecordingState::Transcribing),
            command: JobCommand::SaveAudio,
        };
        (job, step)
    }
}

/// The transcription service is asked with the user's own settings: the job's
/// API key, language, model and vocabulary, and the saved recording.
pub proof fn lemma_transcription_uses_settings(job: TranscriptionJob, event: JobEvent, step: JobStep)
    requires
        job.awaits(event),
        job.reacts(event, step),
        step.command is Transcribe,
    ensures
        step.command matches JobCommand::Transcribe(r) && {
            &&& r.api_key == job.settings().groq_api_key
            &&& r.audio_file@ == TEMP_AUDIO_FILE_NAME@
            &&& r.language == job.settings().language
            &&& r.model == job.settings().whisper_model
            &&& r.vocabulary == job.settings().vocabulary
        },
{
}

/// The whole transcript goes on to cleaning, whatever its length: the clean
/// command carries exactly the text the service returned.
pub proof fn lemma_transcript_cleaned_whole(job: TranscriptionJob, text: String, step: JobStep)
    requires
        job.awaits(JobEvent::Transcribed(Ok(text))),
        job.reacts(JobEvent::Transcribed(Ok(text)), step),
    ensures
        step.command matches JobCommand::Clean(u) && u@ == text@ && u@.len() == text@.len(),
{
}

/// How many more outcomes a job at this stage can wait for, at most.
pub open spec fn remaining_steps(stage: JobStage) -> nat {
    match stage {
        JobStage::AwaitingAudio => 6,
        JobStage::AwaitingQuota => 5,
        JobStage::AwaitingTranscript => 4,
        JobStage::AwaitingCleanup => 3,
        JobStage::AwaitingInsert(_) => 2,
        JobStage::AwaitingPaste(_) => 1,
        JobStage::Finished => 0,
    }
}

/// Every outcome moves the job strictly forward: a job ends after at most six
/// outcomes, and a finished job waits for nothing.
pub proof fn lemma_job_progresses(job: TranscriptionJob, event: JobEvent)
    requires
        job.awaits(event),
    ensures
        remaining_steps(job.successor(event)) < remaining_steps(job.stage()),
        job.stage() is Finished ==> !job.awaits(event),
{
}

/// The transcription service is called only after the quota check let the
/// request through: never when the day's quota is used up.
pub proof fn lemma_transcribes_only_within_quota(
    job: TranscriptionJob,
    event: JobEvent,
    step: JobStep,
)
    requires
        job.awaits(event),
        job.reacts(event, step),
        step.command is Transcribe,
    ensures
        event matches JobEvent::QuotaChecked(v) && !(v is Blocked),
{
}

/// Notes are stored in the database only in `DbPaste` mode.
pub proof fn lemma_stores_only_in_db_mode(job: TranscriptionJob, event: JobEvent, step: JobStep)
    requires
        job.awaits(event),
        job.reacts(event, step),
        step.command is InsertNote,
    ensures
        job.mode() is DbPaste,
        event is Cleaned,
{
}

/// A non-empty cleaned transcript is always pasted: at once in `PasteOnly`
/// mode, after the database insertion in `DbPaste` mode.
pub proof fn lemma_nonempty_transcript_heads_for_paste(
    job: TranscriptionJob,
    text: String,
    step: JobStep,
)
    requires
        job.stage() is AwaitingCleanup,
        text@.len() > 0,
        job.reacts(JobEvent::Cleaned(text), step),
    ensures
        job.mode() is PasteOnly ==> step.command == JobCommand::Paste(text),
        job.mode() is DbPaste ==> {
            &&& step.command is InsertNote
            &&& job.successor(JobEvent::Cleaned(text)) == JobStage::AwaitingInsert(text)
        },
{
}

/// The database insertion never blocks the paste: whatever its outcome, the
/// job answers the same way, pasting the text.
pub proof fn lemma_insertion_outcome_is_ignored(
    job: TranscriptionJob,
    text: String,
    first: Result<(), String>,
    second: Result<(), String>,
    first_step: JobStep,
    second_step: JobStep,
)
    requires
        job.stage() == JobStage::AwaitingInsert(text),
        job.reacts(JobEvent::NoteInserted(first), first_step),
        job.reacts(JobEvent::NoteInserted(second), second_step),
    ensures
        first_step == second_step,
        first_step.command == JobCommand::Paste(text),
        job.successor(JobEvent::NoteInserted(first)) == job.successor(
            JobEvent::NoteInserted(second),
        ),
{
}

/// Once pasting was attempted, the transcript is the job's result, whether
/// the paste succeeded or not.
pub proof fn lemma_transcript_returned_after_paste(
    job: TranscriptionJob,
    text: String,
    outcome: Result<(), String>,
    step: JobStep,
)
    requires
        job.stage() == JobStage::AwaitingPaste(text),
        job.reacts(JobEvent::Pasted(outcome), step),
    ensures
        step.finishes(Ok(text@)),
        step.announce == Some(RecordingState::Ready),
{
}

/// Every ending of the job puts the recorder back to `Ready`, except a failure
/// to save the recorded audio.
pub proof fn lemma_finish_releases_recorder(job: TranscriptionJob, event: JobEvent, step: JobStep)
    requires
        job.awaits(event),
        job.reacts(event, step),
        step.command is Finish,
        !(event is AudioSaved),
    ensures
        step.announce == Some(RecordingState::Ready),
        job.successor(event) is Finished,
{
}

/// The temporary recording is discarded exactly when the quota refused the
/// request or the transcription service answered.
pub proof fn lemma_audio_discarded_when_done(job: TranscriptionJob, event: JobEvent, step: JobStep)
    requires
        job.awaits(event),
        job.reacts(event, step),
    ensures
        step.discard_audio <==> (event is Transcribed || event matches JobEvent::QuotaChecked(
            CheckResult::Blocked(_),
        )),
{
}

/// `jobs`, `events` and `steps` are a run of the pipeline: each job waits for
/// the next event, answers it with the next step, and moves to the next job
/// with the same mode and settings.
pub open spec fn is_run(jobs: Seq<TranscriptionJob>, events: Seq<JobEvent>, steps: Seq<JobStep>) -> bool {
    &&& jobs.len() == events.len() + 1
    &&& steps.len() == events.len()
    &&& forall|i: int|
        #![trigger events[i]]
        0 <= i < events.len() ==> {
            &&& jobs[i].awaits(events[i])
            &&& jobs[i].reacts(events[i], steps[i])
            &&& jobs[i + 1].stage() == jobs[i].successor(events[i])
        }
}

/// `states` follows the recorder through a run: a step that announces
/// `Ready` makes it ready, any other leaves it as it is (see `advance`).
pub open spec fn follows_recorder(steps: Seq<JobStep>, states: Seq<RecordingState>) -> bool {
    &&& states.len() == steps.len() + 1
    &&& forall|i: int|
        #![trigger steps[i]]
        0 <= i < steps.len() ==> {
            &&& steps[i].announce == Some(RecordingState::Ready) ==> states[i + 1]
                == RecordingState::Ready
            &&& steps[i].announce != Some(RecordingState::Ready) ==> states[i + 1] == states[i]
        }
}

/// A job moves one stage forward at each event of a run.
proof fn lemma_run_ranks(jobs: Seq<TranscriptionJob>, events: Seq<JobEvent>, steps: Seq<JobStep>, k: int)
    requires
        is_run(jobs, events, steps),
        0 <= k <= events.len(),
    ensures
        remaining_steps(jobs[k].stage()) + k <= remaining_steps(jobs[0].stage()),
    decreases k,
{
    if k > 0 {
        lemma_run_ranks(jobs, events, steps, k - 1);
        let _ = events[k - 1];
        lemma_job_progresses(jobs[k - 1], events[k - 1]);
    }
}

/// What a step announces, for any event but a failed audio save: `Ready`
/// exactly when it ends the job, nothing otherwise.
proof fn lemma_step_announcement(job: TranscriptionJob, event: JobEvent, step: JobStep)
    requires
        job.awaits(event),
        job.reacts(event, step),
        !(event matches JobEvent::AudioSaved(Err(_))),
    ensures
        step.command is Finish ==> step.announce == Some(RecordingState::Ready),
        !(step.command is Finish) ==> step.announce is None,
        step.command is Finish ==> job.successor(event) is Finished,
{
}

/// A whole run once the audio is saved: the recorder stays `Transcribing`
/// until the last step, which ends the job and puts it back to `Ready`; no
/// step before it announces anything or ends the job, and a run has at most
/// six events.
pub proof fn lemma_run_ends_ready(
    jobs: Seq<TranscriptionJob>,
    events: Seq<JobEvent>,
    steps: Seq<JobStep>,
    states: Seq<RecordingState>,
)
    requires
        is_run(jobs, events, steps),
        events.len() >= 1,
        jobs[0].stage() is AwaitingAudio,
        events[0] matches JobEvent::AudioSaved(Ok(_)),
        steps.last().command is Finish,
        follows_recorder(steps, states),
        states[0] == RecordingState::Transcribing,
    ensures
        events.len() <= 6,
        forall|i: int|
            0 <= i < steps.len() - 1 ==> #[trigger] steps[i].announce is None && !(
            steps[i].command is Finish),
        steps.last().announce == Some(RecordingState::Ready),
        forall|i: int| 0 <= i < states.len() - 1 ==> #[trigger] states[i] == RecordingState::Transcribing,
        states.last() == RecordingState::Ready,
{
    let n = events.len() as int;
    lemma_run_ranks(jobs, events, steps, n);
    assert forall|i: int| 0 <= i < n implies #[trigger] events[i] matches JobEvent::AudioSaved(Ok(_))
        || !(events[i] is AudioSaved) by {
        if i > 0 {
            lemma_run_ranks(jobs, events, steps, i);
        }
    }
    assert forall|i: int| 0 <= i < n - 1 implies #[trigger] steps[i].announce is None && !(
    steps[i].command is Finish) by {
        let _ = events[i];
        let _ = events[i + 1];
        lemma_step_announcement(jobs[i], events[i], steps[i]);
    }
    let _ = events[n - 1];
    lemma_step_announcement(jobs[n - 1], events[n - 1], steps[n - 1]);
    lemma_run_states(steps, states, n - 1);
}

/// Before the last step of a run nothing is announced, so the recorder keeps
/// its first state.
proof fn lemma_run_states(steps: Seq<JobStep>, states: Seq<RecordingState>, k: int)
    requires
        follows_recorder(steps, states),
        0 <= k < states.len(),
        forall|i: int| 0 <= i < steps.len() - 1 ==> #[trigger] steps[i].announce is None,
        k <= steps.len() - 1 || steps.len() == 0,
    ensures
        forall|i: int| 0 <= i <= k ==> #[trigger] states[i] == states[0],
    decreases k,
{
    if k > 0 {
        lemma_run_states(steps, states, k - 1);
        let _ = steps[k - 1];
    }
}

} // verus!
