//! The session: one current download, a backlog of pending ones, and the
//! transitions between the lifecycle states.

use vstd::prelude::*;
use queues::Queue;
use crate::bindings::{queue_add, queue_new, queue_remove, queue_size, queue_tokens};
use crate::codec::{decoded_target, encoded_target};
use crate::transfer::Progress;
use crate::descriptor::{descriptor_view, DescriptorModel, DownloadDescriptor};
use crate::error::DownloadError;
use crate::status::DownloadStatus;

verus! {

/// A session as a mathematical value.
pub struct SessionModel {
    /// The lifecycle state.
    pub status: DownloadStatus,
    /// What each pending token stands for, the oldest first. A token that
    /// stands for no descriptor shows as `None`.
    pub queue: Seq<Option<DescriptorModel>>,
    /// The download that is being processed, has been paused or has failed.
    pub current: Option<DescriptorModel>,
    /// The last measured speed, in KiB per second.
    pub speed: u64,
    /// The last measured progress, in percent of the expected size.
    pub percent: u64,
}

/// The record that a session keeps: its state, its backlog and its metrics.
pub struct DownloaderWrapper {
    status: DownloadStatus,
    queue: Queue<String>,
    current_speed: u64,
    current_target: Option<DownloadDescriptor>,
    current_percent: u64,
}

/// The session as its callers see it.
pub struct DownloaderClient {
    state: DownloaderWrapper,
}

/// The session that has just been created: idle, with nothing pending and
/// nothing measured.
pub open spec fn fresh_session() -> SessionModel {
    SessionModel {
        status: DownloadStatus::Pending,
        queue: Seq::empty(),
        current: None,
        speed: 0,
        percent: 0,
    }
}

/// What a session reports of its current download.
#[derive(Debug)]
pub struct DownloadInfo {
    /// The id of the current download.
    pub id: String,
    /// The last measured speed, in KiB per second.
    pub speed: u64,
    /// The last measured progress, in percent.
    pub percent: u64,
}

/// A report as a mathematical value.
pub struct InfoModel {
    pub id: Seq<char>,
    pub speed: u64,
    pub percent: u64,
}

impl View for DownloadInfo {
    type V = InfoModel;

    open spec fn view(&self) -> InfoModel {
        InfoModel { id: self.id@, speed: self.speed, percent: self.percent }
    }
}

/// The view of a report that may be missing.
pub open spec fn info_view(info: Option<DownloadInfo>) -> Option<InfoModel> {
    match info {
        Some(i) => Some(i@),
        None => None,
    }
}

/// The answer to a request when nothing went wrong: the descriptor of the
/// download to transfer now, if one is to be started.
pub open spec fn answer_view(r: Result<Option<DownloadDescriptor>, DownloadError>) -> Result<
    Option<DescriptorModel>,
    DownloadError,
> {
    match r {
        Ok(d) => Ok(descriptor_view(d)),
        Err(e) => Err(e),
    }
}

impl SessionModel {
    /// A session is consistent when it has a current download exactly when
    /// it is not in the state `Pending`.
    pub open spec fn wf(self) -> bool {
        (self.status is Pending) == (self.current is None)
    }

    /// The session with one more entry at the end of the backlog.
    pub open spec fn enqueued(self, entry: Option<DescriptorModel>) -> SessionModel {
        SessionModel { queue: self.queue.push(entry), ..self }
    }

    /// The session that has begun to transfer `d`.
    pub open spec fn downloading(self, d: DescriptorModel) -> SessionModel {
        SessionModel { status: DownloadStatus::Downloading, current: Some(d), ..self }
    }

    /// The session after it was asked to go on with the backlog. A busy
    /// session stays as it is. An idle one whose backlog is empty becomes
    /// `Pending`, with no current download. Else the oldest entry leaves the
    /// backlog, and the session begins to transfer it if it is a descriptor.
    pub open spec fn advanced(self) -> SessionModel {
        if !self.status.is_idle() {
            self
        } else if self.queue.len() == 0 {
            SessionModel { status: DownloadStatus::Pending, current: None, ..self }
        } else {
            let rest = SessionModel { queue: self.queue.drop_first(), ..self };
            match self.queue[0] {
                Some(d) => rest.downloading(d),
                None => rest,
            }
        }
    }

    /// What the session answers when asked to go on with the backlog: the
    /// descriptor that it begins to transfer, nothing where it is busy or
    /// the backlog is empty, and an error where the oldest entry is no
    /// descriptor.
    pub open spec fn advance_answer(self) -> Result<Option<DescriptorModel>, DownloadError> {
        if !self.status.is_idle() || self.queue.len() == 0 {
            Ok(None)
        } else {
            match self.queue[0] {
                Some(d) => Ok(Some(d)),
                None => Err(DownloadError::MalformedToken),
            }
        }
    }

    /// The session after the descriptor `d` was registered. A descriptor
    /// that has no token changes nothing. Else it goes to the end of the
    /// backlog, and an idle session goes on with the backlog at once.
    pub open spec fn registered(self, d: DescriptorModel) -> SessionModel {
        if encoded_target(d) is None {
            self
        } else if self.status.is_idle() {
            self.enqueued(Some(d)).advanced()
        } else {
            self.enqueued(Some(d))
        }
    }

    /// What the session answers to the registration of `d`.
    pub open spec fn register_answer(self, d: DescriptorModel) -> Result<
        Option<DescriptorModel>,
        DownloadError,
    > {
        if encoded_target(d) is None {
            Err(DownloadError::MalformedToken)
        } else {
            self.enqueued(Some(d)).advance_answer()
        }
    }

    /// The session after it was handed what a token stands for. Nothing
    /// changes if that is no descriptor. An idle session begins to transfer
    /// the descriptor; a busy one puts it at the end of the backlog.
    pub open spec fn started(self, target: Option<DescriptorModel>) -> SessionModel {
        match target {
            None => self,
            Some(d) => if self.status.is_idle() {
                self.downloading(d)
            } else {
                self.enqueued(Some(d))
            },
        }
    }

    /// What the session answers when handed what a token stands for.
    pub open spec fn start_answer(self, target: Option<DescriptorModel>) -> Result<
        Option<DescriptorModel>,
        DownloadError,
    > {
        match target {
            None => Err(DownloadError::MalformedToken),
            Some(d) => if self.status.is_idle() {
                Ok(Some(d))
            } else {
                Ok(None)
            },
        }
    }

    /// The session after a pause was requested: a transfer that is running
    /// becomes paused, and nothing else changes.
    pub open spec fn paused(self) -> SessionModel {
        if self.status is Downloading {
            SessionModel { status: DownloadStatus::Paused, ..self }
        } else {
            self
        }
    }

    /// Whether the session holds a paused download that can go on.
    pub open spec fn resumable(self) -> bool {
        self.status is Paused && self.current is Some
    }

    /// The session after it was asked to resume: a paused download is
    /// transferred again, and nothing else changes.
    pub open spec fn resumed(self) -> SessionModel {
        if self.resumable() {
            SessionModel { status: DownloadStatus::Downloading, ..self }
        } else {
            self
        }
    }

    /// The session after the engine measured the transfer: a session that
    /// is transferring takes the new values over.
    pub open spec fn measured(self, speed: u64, percent: u64) -> SessionModel {
        if self.status is Downloading {
            SessionModel { speed, percent, ..self }
        } else {
            self
        }
    }

    /// The session after the stream of the transfer ended or broke. Only a
    /// session that is transferring takes note: it goes on to unpack the
    /// download, or has failed.
    pub open spec fn download_finished(self, succeeded: bool) -> SessionModel {
        if self.status is Downloading && self.current is Some {
            if succeeded {
                SessionModel { status: DownloadStatus::Extracting, ..self }
            } else {
                SessionModel { status: DownloadStatus::Error, ..self }
            }
        } else {
            self
        }
    }

    /// The download that is to be unpacked once the stream of the transfer
    /// ended: the current one, where the session was transferring and the
    /// transfer succeeded.
    pub open spec fn to_unpack(self, succeeded: bool) -> Option<DescriptorModel> {
        if self.status is Downloading && succeeded {
            self.current
        } else {
            None
        }
    }

    /// The session after the pipeline that unpacks the download ended. Only
    /// a session that is unpacking takes note: it is idle again, with no
    /// current download, or has failed and keeps the download that failed.
    pub open spec fn extraction_finished(self, succeeded: bool) -> SessionModel {
        if self.status is Extracting {
            if succeeded {
                SessionModel { status: DownloadStatus::Pending, current: None, ..self }
            } else {
                SessionModel { status: DownloadStatus::Error, ..self }
            }
        } else {
            self
        }
    }

    /// What the session reports: the id of the current download with the
    /// last measurement, or nothing where there is no current download.
    pub open spec fn info(self) -> Option<InfoModel> {
        match self.current {
            Some(d) => Some(InfoModel { id: d.id, speed: self.speed, percent: self.percent }),
            None => None,
        }
    }
}

impl View for DownloaderWrapper {
    type V = SessionModel;

    closed spec fn view(&self) -> SessionModel {
        SessionModel {
            status: self.status,
            queue: backlog_of(queue_tokens(self.queue)),
            current: descriptor_view(self.current_target),
            speed: self.current_speed,
            percent: self.current_percent,
        }
    }
}

impl View for DownloaderClient {
    type V = SessionModel;

    closed spec fn view(&self) -> SessionModel {
        self.state@
    }
}

impl DownloaderWrapper {
    /// The record of a session that has just been created.
    pub fn new() -> (state: Self)
        ensures
            state@ == fresh_session(),
    {
        let state = DownloaderWrapper {
            status: DownloadStatus::Pending,
            queue: queue_new(),
            current_speed: 0,
            current_target: None,
            current_percent: 0,
        };
        assert(state@.queue =~= Seq::empty());
        state
    }
}

/// The backlog that a queue of tokens stands for.
pub open spec fn backlog_of(tokens: Seq<Seq<char>>) -> Seq<Option<DescriptorModel>> {
    tokens.map_values(|token: Seq<char>| decoded_target(token))
}

/// A token put behind the others shows at the end of the backlog.
proof fn lemma_backlog_push(tokens: Seq<Seq<char>>, token: Seq<char>)
    ensures
        backlog_of(tokens.push(token)) == backlog_of(tokens).push(decoded_target(token)),
{
    assert(backlog_of(tokens.push(token)) =~= backlog_of(tokens).push(decoded_target(token)));
}

/// The backlog without its oldest token is the backlog without its oldest
/// entry.
proof fn lemma_backlog_drop_first(tokens: Seq<Seq<char>>)
    requires
        tokens.len() > 0,
    ensures
        backlog_of(tokens.drop_first()) == backlog_of(tokens).drop_first(),
        backlog_of(tokens)[0] == decoded_target(tokens[0]),
{
    assert(backlog_of(tokens.drop_first()) =~= backlog_of(tokens).drop_first());
}

impl DownloaderClient {
    /// A session that has just been created.
    pub fn new() -> (client: Self)
        ensures
            client@ == fresh_session(),
    {
        DownloaderClient { state: DownloaderWrapper::new() }
    }

    /// The lifecycle state of the session. The transfer engine reads it
    /// after each chunk to learn of a pause.
    pub fn status(&self) -> (status: DownloadStatus)
        ensures
            status == self@.status,
    {
        self.state.status
    }

    /// The number of downloads that wait in the backlog.
    pub fn pending(&self) -> (n: usize)
        ensures
            n == self@.queue.len(),
    {
        queue_size(&self.state.queue)
    }

    /// Registers a download.
    ///
    /// The descriptor goes to the end of the backlog as a token. If the
    /// session is idle, it then goes on with the backlog at once, so that
    /// with an empty backlog the new download starts immediately. The answer
    /// holds the descriptor of the download to transfer now, if one was
    /// started. While a download is being processed or is paused, nothing is
    /// started.
    pub fn register(&mut self, target: DownloadDescriptor) -> (r: Result<
        Option<DownloadDescriptor>,
        DownloadError,
    >)
        ensures
            final(self)@ == old(self)@.registered(target@),
            answer_view(r) == old(self)@.register_answer(target@),
    {
        let token = match Self::encode_target(&target) {
            Ok(token) => token,
            Err(e) => {
                return Err(e);
            },
        };
        proof {
            lemma_backlog_push(queue_tokens(self.state.queue), token@);
        }
        queue_add(&mut self.state.queue, token);
        assert(self@ == old(self)@.enqueued(Some(target@)));
        if self.state.status.idle() {
            self.next()
        } else {
            Ok(None)
        }
    }

    /// Goes on with the backlog.
    ///
    /// An idle session takes the oldest token out of the backlog and begins
    /// to transfer the download that it stands for; the answer holds its
    /// descriptor. With an empty backlog the session becomes `Pending`. A
    /// token that stands for no descriptor is dropped and reported. A busy
    /// session does nothing.
    pub fn next(&mut self) -> (r: Result<Option<DownloadDescriptor>, DownloadError>)
        ensures
            final(self)@ == old(self)@.advanced(),
            answer_view(r) == old(self)@.advance_answer(),
    {
        if !self.state.status.idle() {
            return Ok(None);
        }
        proof {
            if queue_tokens(self.state.queue).len() > 0 {
                lemma_backlog_drop_first(queue_tokens(self.state.queue));
            }
        }
        match queue_remove(&mut self.state.queue) {
            None => {
                self.state.status = DownloadStatus::Pending;
                self.state.current_target = None;
                Ok(None)
            },
            Some(token) => match Self::decode_target(token) {
                Ok(target) => {
                    self.state.current_target = Some(target.clone());
                    self.state.status = DownloadStatus::Downloading;
                    Ok(Some(target))
                },
                Err(e) => Err(e),
            },
        }
    }

    /// Starts the download that a token stands for.
    ///
    /// A token that stands for no descriptor is rejected and changes
    /// nothing. An idle session begins to transfer the download, and the
    /// answer holds its descriptor. A busy session starts nothing: the token
    /// goes to the end of the backlog.
    pub fn start_download(&mut self, target: String) -> (r: Result<
        Option<DownloadDescriptor>,
        DownloadError,
    >)
        ensures
            final(self)@ == old(self)@.started(decoded_target(target@)),
            answer_view(r) == old(self)@.start_answer(decoded_target(target@)),
    {
        let descriptor = match Self::decode_target(target.clone()) {
            Ok(descriptor) => descriptor,
            Err(e) => {
                return Err(e);
            },
        };
        if self.state.status.idle() {
            self.state.current_target = Some(descriptor.clone());
            self.state.status = DownloadStatus::Downloading;
            Ok(Some(descriptor))
        } else {
            proof {
                lemma_backlog_push(queue_tokens(self.state.queue), target@);
            }
            queue_add(&mut self.state.queue, target);
            Ok(None)
        }
    }

    /// Reports the id of the current download with the last measured speed
    /// and progress, or nothing where the session has no current download.
    /// After a failure the download that failed is still reported.
    pub fn get_info(&self) -> (info: Option<DownloadInfo>)
        ensures
            info_view(info) == self@.info(),
    {
        match &self.state.current_target {
            Some(target) => Some(
                DownloadInfo {
                    id: target.id.clone(),
                    speed: self.state.current_speed,
                    percent: self.state.current_percent,
                },
            ),
            None => None,
        }
    }

    /// Requests a pause. The transfer engine learns of it after the chunk
    /// that it is writing. Nothing happens unless a transfer is running.
    pub fn pause_download(&mut self)
        ensures
            final(self)@ == old(self)@.paused(),
    {
        if let DownloadStatus::Downloading = self.state.status {
            self.state.status = DownloadStatus::Paused;
        }
    }

    /// Resumes the paused download. The answer holds its descriptor, for
    /// the transfer to go on from the progress marker. Nothing happens, and
    /// nothing is answered, unless a download is paused.
    pub fn resume_download(&mut self) -> (target: Option<DownloadDescriptor>)
        ensures
            final(self)@ == old(self)@.resumed(),
            descriptor_view(target) == if old(self)@.resumable() {
                old(self)@.current
            } else {
                None
            },
    {
        if let DownloadStatus::Paused = self.state.status {
            match &self.state.current_target {
                Some(target) => {
                    let target = target.clone();
                    self.state.status = DownloadStatus::Downloading;
                    Some(target)
                },
                None => None,
            }
        } else {
            None
        }
    }

    /// Takes over a measurement of the running transfer.
    pub fn record_progress(&mut self, progress: Progress)
        ensures
            final(self)@ == old(self)@.measured(progress.speed, progress.percent),
    {
        if let DownloadStatus::Downloading = self.state.status {
            self.state.current_speed = progress.speed;
            self.state.current_percent = progress.percent;
        }
    }

    /// Takes note of how the transfer ended: the stream came to its end, or
    /// the network or the file system failed.
    ///
    /// A session that is transferring goes on to unpack the download, and
    /// the answer holds the descriptor whose destination is to be unpacked;
    /// on a failure it has failed. A paused session stays paused.
    pub fn finish_download(&mut self, outcome: Result<(), DownloadError>) -> (target: Option<
        DownloadDescriptor,
    >)
        ensures
            final(self)@ == old(self)@.download_finished(outcome is Ok),
            descriptor_view(target) == old(self)@.to_unpack(outcome is Ok),
    {
        if let DownloadStatus::Downloading = self.state.status {
            match &self.state.current_target {
                Some(target) => {
                    let target = target.clone();
                    match outcome {
                        Ok(_) => {
                            self.state.status = DownloadStatus::Extracting;
                            Some(target)
                        },
                        Err(_) => {
                            self.state.status = DownloadStatus::Error;
                            None
                        },
                    }
                },
                None => None,
            }
        } else {
            None
        }
    }

    /// Takes note of how the pipeline that unpacks the download ended. A
    /// session that is unpacking becomes idle, with no current download, or
    /// has failed.
    pub fn finish_extraction(&mut self, outcome: Result<(), DownloadError>)
        ensures
            final(self)@ == old(self)@.extraction_finished(outcome is Ok),
    {
        if let DownloadStatus::Extracting = self.state.status {
            match outcome {
                Ok(_) => {
                    self.state.status = DownloadStatus::Pending;
                    self.state.current_target = None;
                },
                Err(_) => {
                    self.state.status = DownloadStatus::Error;
                },
            }
        }
    }
}

/// What the registration of a descriptor adds to the backlog: the
/// descriptor, or nothing where it has no token.
pub open spec fn waiting(d: DescriptorModel) -> Seq<Option<DescriptorModel>> {
    if encoded_target(d) is Some {
        seq![Some(d)]
    } else {
        Seq::empty()
    }
}

/// What a busy session answers to the registration of a descriptor:
/// that nothing was started, or that the descriptor has no token.
pub open spec fn busy_answer(d: DescriptorModel) -> Result<Option<DescriptorModel>, DownloadError> {
    if encoded_target(d) is Some {
        Ok(None)
    } else {
        Err(DownloadError::MalformedToken)
    }
}

/// Downloads that are registered while the session is busy wait in the
/// order in which they were registered, behind what waited before; the
/// current download and the state stay as they are, and nothing is started.
/// This holds of all descriptors: one that has no token is rejected and
/// leaves the backlog as it was. Where all three have a token, the backlog
/// ends with the three in the order of their registration.
pub proof fn lemma_register_while_busy_enqueues(
    s: SessionModel,
    a: DescriptorModel,
    b: DescriptorModel,
    c: DescriptorModel,
)
    requires
        !s.status.is_idle(),
    ensures
        s.registered(a).registered(b).registered(c) == (SessionModel {
            queue: s.queue + waiting(a) + waiting(b) + waiting(c),
            ..s
        }),
        s.register_answer(a) == busy_answer(a),
        s.registered(a).register_answer(b) == busy_answer(b),
        s.registered(a).registered(b).register_answer(c) == busy_answer(c),
        encoded_target(a) is Some && encoded_target(b) is Some && encoded_target(c) is Some
            ==> s.registered(a).registered(b).registered(c).queue == s.queue + seq![
            Some(a),
            Some(b),
            Some(c),
        ],
{
    let one = s.registered(a);
    assert(one.queue =~= s.queue + waiting(a));
    let two = one.registered(b);
    assert(two.queue =~= s.queue + waiting(a) + waiting(b));
    let three = two.registered(c);
    assert(three.queue =~= s.queue + waiting(a) + waiting(b) + waiting(c));
    if encoded_target(a) is Some && encoded_target(b) is Some && encoded_target(c) is Some {
        assert(three.queue =~= s.queue + seq![Some(a), Some(b), Some(c)]);
    }
}

/// The backlog is served first in, first out. Of a backlog that holds `a`,
/// `b` and `c` in this order, an idle session starts `a`; once that
/// download is through, the next request starts `b`; and once that one is
/// through, the third request starts `c` and leaves the backlog empty.
pub proof fn lemma_backlog_is_served_in_order(
    s: SessionModel,
    a: DescriptorModel,
    b: DescriptorModel,
    c: DescriptorModel,
)
    requires
        s.status.is_idle(),
        s.queue == seq![Some(a), Some(b), Some(c)],
    ensures
        ({
            let first = s.advanced();
            let second = first.download_finished(true).extraction_finished(true).advanced();
            let third = second.download_finished(true).extraction_finished(true).advanced();
            &&& s.advance_answer() == Ok::<Option<DescriptorModel>, DownloadError>(Some(a))
            &&& first.status is Downloading && first.current == Some(a)
            &&& first.download_finished(true).extraction_finished(true).advance_answer() == Ok::<
                Option<DescriptorModel>,
                DownloadError,
            >(Some(b))
            &&& second.status is Downloading && second.current == Some(b)
            &&& second.download_finished(true).extraction_finished(true).advance_answer() == Ok::<
                Option<DescriptorModel>,
                DownloadError,
            >(Some(c))
            &&& third.status is Downloading && third.current == Some(c)
            &&& third.queue.len() == 0
        }),
{
    let first = s.advanced();
    assert(first.queue =~= seq![Some(b), Some(c)]);
    let idle = first.download_finished(true).extraction_finished(true);
    assert(idle.status is Pending);
    let second = idle.advanced();
    assert(second.queue =~= seq![Some(c)]);
    let idle_again = second.download_finished(true).extraction_finished(true);
    assert(idle_again.status is Pending);
    let third = idle_again.advanced();
    assert(third.queue =~= Seq::<Option<DescriptorModel>>::empty());
}

/// At most one download is in flight. A consistent session that is
/// transferring has a current download; every request and every event
/// leaves a consistent session consistent; and registering a download with
/// a busy session, or handing it a token, changes neither the state nor the
/// current download, and starts nothing: a registered descriptor goes to
/// the end of the backlog, or is rejected where it has no token.
pub proof fn lemma_single_flight(
    s: SessionModel,
    d: DescriptorModel,
    target: Option<DescriptorModel>,
    succeeded: bool,
    speed: u64,
    percent: u64,
)
    requires
        s.wf(),
    ensures
        s.status is Downloading ==> s.current is Some,
        s.registered(d).wf(),
        s.advanced().wf(),
        s.started(target).wf(),
        s.paused().wf(),
        s.resumed().wf(),
        s.measured(speed, percent).wf(),
        s.download_finished(succeeded).wf(),
        s.extraction_finished(succeeded).wf(),
        !s.status.is_idle() ==> s.registered(d).status == s.status && s.registered(d).current
            == s.current && s.registered(d).queue == s.queue + waiting(d) && s.register_answer(d)
            == busy_answer(d),
        !s.status.is_idle() ==> s.started(target).status == s.status && s.started(target).current
            == s.current && s.advanced() == s && (s.start_answer(target) is Err || s.start_answer(
            target,
        ) == Ok::<Option<DescriptorModel>, DownloadError>(None)),
{
    if !s.status.is_idle() {
        assert(s.registered(d).queue =~= s.queue + waiting(d));
    }
}

/// A session that has just been created is consistent and reports no
/// current download.
pub proof fn lemma_fresh_session_is_idle()
    ensures
        fresh_session().wf(),
        fresh_session().status is Pending,
        fresh_session().info() is None,
{
}

} // verus!
