//! The queue client: turns user commands into wire frames.
//!
//! Every method builds the exact frame the daemon expects; the caller
//! writes the frame to the local socket (one connect-write-close cycle
//! per frame) and reports transport failures as `SmError::Transport`.
//! The `add_entry` path is split into a classification step, the outside
//! lookups the caller performs (filesystem probe, path canonicalization,
//! media-info provider), and an outcome step that builds the frames and
//! the feedback text from the lookup results.

use vstd::prelude::*;
use vstd::string::StringSliceAdditionalSpecFns;
use crate::SmError;
use crate::wire::{MessageKind, ControlCommand, EntryKind, frame_spec, control_payload_spec,
    control_id_payload_spec, entry_payload_spec, control_frame, control_id_frame, entry_frame,
    entry_frame_bytes, push_bytes};

verus! {

/// Priority given to a request when the user names none.
pub const DEFAULT_PRIORITY: u64 = 50;

/// Builder of the frames sent over the daemon's control socket.
pub struct SocketCom {}

/// What probing the user's input against the local filesystem found.
#[derive(Debug, Clone, Copy, PartialEq, Eq, Structural)]
pub enum LocalProbe {
    /// Metadata resolved to a regular file or a directory.
    FileOrDir,
    /// Metadata resolved, but to neither a file nor a directory.
    OtherKind,
    /// No metadata: the input names nothing on the local filesystem.
    NoMetadata,
}

/// The classification of one `add_entry` request.
#[derive(Debug, Clone, Copy, PartialEq, Eq, Structural)]
pub enum AddPlan {
    /// Forced raw stream: send the input verbatim as a filestream.
    RawStream,
    /// A local file or directory: canonicalize, then send the path.
    LocalMedia,
    /// Nothing local: ask the media-info provider.
    TryProvider,
    /// Metadata exists but is not playable; nothing to ask.
    Unrecognized,
}

/// One media item as the provider resolved it, reduced to plain bytes.
pub struct ProviderVideo {
    /// The provider's stable identifier for the item.
    pub id: Vec<u8>,
    /// The display title.
    pub title: Vec<u8>,
    /// The item's page address, when the provider exposes one.
    pub webpage_url: Option<Vec<u8>>,
    /// Whether the item came from the provider's native extractor, whose
    /// identifiers are stable on their own.
    pub from_youtube: bool,
}

/// How one `add_entry` request is classified from the raw flag and the
/// filesystem probe: the raw flag wins, a file or directory is local
/// media, a missing path is handed to the provider, and anything else
/// is unrecognized.
pub open spec fn add_plan_spec(raw: bool, probe: LocalProbe) -> AddPlan {
    if raw {
        AddPlan::RawStream
    } else {
        match probe {
            LocalProbe::FileOrDir => AddPlan::LocalMedia,
            LocalProbe::OtherKind => AddPlan::Unrecognized,
            LocalProbe::NoMetadata => AddPlan::TryProvider,
        }
    }
}

/// Classifies one request.
pub fn plan_add_entry(raw: bool, probe: LocalProbe) -> (r: AddPlan)
    ensures
        r == add_plan_spec(raw, probe),
{
    if raw {
        AddPlan::RawStream
    } else {
        match probe {
            LocalProbe::FileOrDir => AddPlan::LocalMedia,
            LocalProbe::OtherKind => AddPlan::Unrecognized,
            LocalProbe::NoMetadata => AddPlan::TryProvider,
        }
    }
}

/// The bytes of the text `Added `.
pub open spec fn lit_added() -> Seq<u8> {
    seq![65u8, 100u8, 100u8, 101u8, 100u8, 32u8]
}

/// The bytes of the text `Added Youtube video `.
pub open spec fn lit_added_video() -> Seq<u8> {
    seq![65u8, 100u8, 100u8, 101u8, 100u8, 32u8, 89u8, 111u8, 117u8, 116u8, 117u8, 98u8, 101u8,
        32u8, 118u8, 105u8, 100u8, 101u8, 111u8, 32u8]
}

/// The bytes of the text `Pushed '`.
pub open spec fn lit_pushed() -> Seq<u8> {
    seq![80u8, 117u8, 115u8, 104u8, 101u8, 100u8, 32u8, 39u8]
}

/// The bytes of the text `' as a filestream`.
pub open spec fn lit_as_filestream() -> Seq<u8> {
    seq![39u8, 32u8, 97u8, 115u8, 32u8, 97u8, 32u8, 102u8, 105u8, 108u8, 101u8, 115u8, 116u8,
        114u8, 101u8, 97u8, 109u8]
}

/// The bytes of the separator ` - `.
pub open spec fn lit_sep() -> Seq<u8> {
    seq![32u8, 45u8, 32u8]
}

/// The identifier string sent for one provider item: the stable id when
/// the native extractor produced it, else the page address when there is
/// one, else the id again; then ` - ` and the title.
pub open spec fn provider_ident_spec(v: ProviderVideo) -> Seq<u8> {
    (if v.from_youtube {
        v.id@
    } else {
        match v.webpage_url {
            Some(u) => u@,
            None => v.id@,
        }
    }) + lit_sep() + v.title@
}

/// The feedback line reported for one provider item.
pub open spec fn provider_feedback_one(v: ProviderVideo) -> Seq<u8> {
    lit_added_video() + v.title@ + seq![10u8]
}

/// The aggregate feedback for a provider batch, one line per item, in
/// request order.
pub open spec fn provider_feedback_spec(vs: Seq<ProviderVideo>) -> Seq<u8>
    decreases vs.len(),
{
    if vs.len() == 0 {
        Seq::empty()
    } else {
        provider_feedback_spec(vs.drop_last()) + provider_feedback_one(vs.last())
    }
}

/// The frame sent for one provider item.
pub open spec fn provider_frame_spec(v: ProviderVideo, priority: u64) -> Seq<u8> {
    frame_spec(MessageKind::EntryRequest, priority,
        entry_payload_spec(EntryKind::YoutubeMedia, provider_ident_spec(v)))
}

impl SocketCom {
    /// A fresh client.
    pub fn new() -> (r: Result<Self, SmError>)
        ensures
            r is Ok,
    {
        Ok(SocketCom {})
    }

    /// Frame asking the daemon to stop playback.
    pub fn stop_playback(&mut self) -> (frame: Vec<u8>)
        ensures
            frame@ == frame_spec(MessageKind::ControlRequest, DEFAULT_PRIORITY,
                control_payload_spec(ControlCommand::StopPlayback)),
    {
        control_frame(ControlCommand::StopPlayback, DEFAULT_PRIORITY)
    }

    /// Frame asking the daemon to pause playback.
    pub fn pause_playback(&mut self) -> (frame: Vec<u8>)
        ensures
            frame@ == frame_spec(MessageKind::ControlRequest, DEFAULT_PRIORITY,
                control_payload_spec(ControlCommand::PausePlayback)),
    {
        control_frame(ControlCommand::PausePlayback, DEFAULT_PRIORITY)
    }

    /// Frame asking the daemon to resume playback.
    pub fn start_playback(&mut self) -> (frame: Vec<u8>)
        ensures
            frame@ == frame_spec(MessageKind::ControlRequest, DEFAULT_PRIORITY,
                control_payload_spec(ControlCommand::StartPlayback)),
    {
        control_frame(ControlCommand::StartPlayback, DEFAULT_PRIORITY)
    }

    /// Frame asking the daemon to skip to the next entry.
    pub fn skip_playback(&mut self) -> (frame: Vec<u8>)
        ensures
            frame@ == frame_spec(MessageKind::ControlRequest, DEFAULT_PRIORITY,
                control_payload_spec(ControlCommand::SkipAndPlay)),
    {
        control_frame(ControlCommand::SkipAndPlay, DEFAULT_PRIORITY)
    }

    /// Frame asking the daemon to clear the whole queue.
    pub fn clear_queue(&mut self) -> (frame: Vec<u8>)
        ensures
            frame@ == frame_spec(MessageKind::ControlRequest, DEFAULT_PRIORITY,
                control_payload_spec(ControlCommand::ClearQueue)),
    {
        control_frame(ControlCommand::ClearQueue, DEFAULT_PRIORITY)
    }

    /// Frame asking the daemon to remove the entry with the given id.
    pub fn delete_entry(&mut self, queue_id: u64) -> (frame: Vec<u8>)
        ensures
            frame@ == frame_spec(MessageKind::ControlRequest, DEFAULT_PRIORITY,
                control_id_payload_spec(ControlCommand::RemoveFromQueue, queue_id)),
    {
        control_id_frame(ControlCommand::RemoveFromQueue, queue_id, DEFAULT_PRIORITY)
    }

    /// Frame asking the daemon to promote the entry with the given id.
    pub fn promote_entry(&mut self, queue_id: u64) -> (frame: Vec<u8>)
        ensures
            frame@ == frame_spec(MessageKind::ControlRequest, DEFAULT_PRIORITY,
                control_id_payload_spec(ControlCommand::PromoteEntry, queue_id)),
    {
        control_id_frame(ControlCommand::PromoteEntry, queue_id, DEFAULT_PRIORITY)
    }

    /// Builds the frames and the feedback text of one `add_entry`
    /// request, from its plan and the results of the outside lookups:
    /// `canonical` is the canonicalized path of a local file (`None`
    /// when canonicalization failed), `provider` the provider's items
    /// (`None` when the lookup failed).  Success is owed exactly to a
    /// raw request, a canonicalized local path, and a provider answer;
    /// the error names which lookup fell through.
    pub fn add_entry_outcome(
        &mut self,
        plan: AddPlan,
        entry: &str,
        canonical: Option<&str>,
        provider: Option<Vec<ProviderVideo>>,
        priority: u64,
    ) -> (r: Result<(Vec<Vec<u8>>, Vec<u8>), SmError>)
        ensures
            match plan {
                AddPlan::RawStream => r matches Ok((frames, feedback))
                    && frames@.len() == 1
                    && frames@[0]@ == frame_spec(MessageKind::EntryRequest, priority,
                        entry_payload_spec(EntryKind::FileStream, entry.spec_bytes()))
                    && feedback@ == lit_pushed() + entry.spec_bytes() + lit_as_filestream(),
                AddPlan::LocalMedia => match canonical {
                    Some(path) => r matches Ok((frames, feedback))
                        && frames@.len() == 1
                        && frames@[0]@ == frame_spec(MessageKind::EntryRequest, priority,
                            entry_payload_spec(EntryKind::LocalMedia, path.spec_bytes()))
                        && feedback@ == lit_added() + path.spec_bytes(),
                    None => r matches Err(e) && e == SmError::PathResolution,
                },
                AddPlan::TryProvider => match provider {
                    Some(videos) => r matches Ok((frames, feedback))
                        && frames@.len() == videos@.len()
                        && (forall|i: int| 0 <= i < videos@.len()
                            ==> #[trigger] frames@[i]@ == provider_frame_spec(videos@[i], priority))
                        && feedback@ == provider_feedback_spec(videos@),
                    None => r matches Err(e) && e == SmError::UnrecognizedInput,
                },
                AddPlan::Unrecognized => r matches Err(e) && e == SmError::UnrecognizedInput,
            },
    {
        match plan {
            AddPlan::RawStream => {
                let frame = entry_frame(EntryKind::FileStream, entry, priority);
                let mut frames: Vec<Vec<u8>> = Vec::new();
                frames.push(frame);
                let mut feedback: Vec<u8> = vec![80u8, 117u8, 115u8, 104u8, 101u8, 100u8, 32u8,
                    39u8];
                proof {
                    assert(feedback@ =~= lit_pushed());
                }
                push_bytes(&mut feedback, entry.as_bytes());
                let mut tail: Vec<u8> = vec![39u8, 32u8, 97u8, 115u8, 32u8, 97u8, 32u8, 102u8,
                    105u8, 108u8, 101u8, 115u8, 116u8, 114u8, 101u8, 97u8, 109u8];
                proof {
                    assert(tail@ =~= lit_as_filestream());
                }
                feedback.append(&mut tail);
                Ok((frames, feedback))
            }
            AddPlan::LocalMedia => {
                match canonical {
                    Some(path) => {
                        let frame = entry_frame(EntryKind::LocalMedia, path, priority);
                        let mut frames: Vec<Vec<u8>> = Vec::new();
                        frames.push(frame);
                        let mut feedback: Vec<u8> = vec![65u8, 100u8, 100u8, 101u8, 100u8, 32u8];
                        proof {
                            assert(feedback@ =~= lit_added());
                        }
                        push_bytes(&mut feedback, path.as_bytes());
                        Ok((frames, feedback))
                    }
                    None => Err(SmError::PathResolution),
                }
            }
            AddPlan::TryProvider => {
                match provider {
                    Some(videos) => {
                        let mut frames: Vec<Vec<u8>> = Vec::new();
                        let mut feedback: Vec<u8> = Vec::new();
                        let mut i: usize = 0;
                        while i < videos.len()
                            invariant
                                i <= videos@.len(),
                                frames@.len() == i,
                                forall|j: int| 0 <= j < i as int
                                    ==> #[trigger] frames@[j]@
                                        == provider_frame_spec(videos@[j], priority),
                                feedback@ == provider_feedback_spec(videos@.take(i as int)),
                            decreases videos@.len() - i,
                        {
                            let v = &videos[i];
                            let ident = provider_ident(v);
                            let frame = entry_frame_bytes(EntryKind::YoutubeMedia, &ident,
                                priority);
                            frames.push(frame);
                            let mut line: Vec<u8> = vec![65u8, 100u8, 100u8, 101u8, 100u8, 32u8,
                                89u8, 111u8, 117u8, 116u8, 117u8, 98u8, 101u8, 32u8, 118u8, 105u8,
                                100u8, 101u8, 111u8, 32u8];
                            proof {
                                assert(line@ =~= lit_added_video());
                            }
                            push_bytes(&mut line, v.title.as_slice());
                            line.push(10u8);
                            feedback.append(&mut line);
                            proof {
                                let t = videos@.take(i + 1);
                                assert(t.drop_last() =~= videos@.take(i as int));
                                assert(t.last() == videos@[i as int]);
                                assert(provider_feedback_one(videos@[i as int])
                                    =~= lit_added_video() + videos@[i as int].title@ + seq![10u8]);
                            }
                            i = i + 1;
                        }
                        proof {
                            assert(videos@.take(videos@.len() as int) =~= videos@);
                        }
                        Ok((frames, feedback))
                    }
                    None => Err(SmError::UnrecognizedInput),
                }
            }
            AddPlan::Unrecognized => Err(SmError::UnrecognizedInput),
        }
    }
}

/// Builds the identifier bytes of one provider item.
pub fn provider_ident(v: &ProviderVideo) -> (r: Vec<u8>)
    ensures
        r@ == provider_ident_spec(*v),
{
    let mut r: Vec<u8> = Vec::new();
    if v.from_youtube {
        push_bytes(&mut r, v.id.as_slice());
    } else {
        match &v.webpage_url {
            Some(u) => push_bytes(&mut r, u.as_slice()),
            None => push_bytes(&mut r, v.id.as_slice()),
        }
    }
    r.push(32u8);
    r.push(45u8);
    r.push(32u8);
    push_bytes(&mut r, v.title.as_slice());
    proof {
        assert(r@ =~= provider_ident_spec(*v));
    }
    r
}

} // verus!
