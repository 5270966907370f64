use vstd::prelude::*;

use crate::{event_model, EventModel, MediaEvent, MediaMetadata, MediaState, MetadataModel};

verus! {

/// The event that a refresh from `previous` to `current` gives, in order of
/// priority: another track, then another state, then the position while
/// playing; otherwise none.
pub open spec fn event_between(previous: MetadataModel, current: MetadataModel) -> Option<EventModel> {
    if previous.differs_from(current) {
        Some(EventModel::MediaChanged(current))
    } else if previous.state != current.state {
        Some(EventModel::StateChanged(current.state))
    } else if current.state == MediaState::Playing {
        Some(EventModel::ProgressChanged(current.elapsed))
    } else {
        None
    }
}

/// The one event, if any, that tells a reader of `previous` about `current`.
pub fn diff(previous: &MediaMetadata, current: &MediaMetadata) -> (r: Option<MediaEvent>)
    ensures
        event_model(r) == event_between(previous@, current@),
{
    if previous.is_different(current) {
        Some(MediaEvent::MediaChanged(current.clone()))
    } else if previous.state != current.state {
        Some(MediaEvent::StateChanged(current.state))
    } else if current.state == MediaState::Playing {
        Some(MediaEvent::ProgressChanged(current.elapsed))
    } else {
        None
    }
}

/// A refresh that changes neither the track nor the state, while not
/// playing, gives no event.
pub proof fn lemma_no_event_when_unchanged(previous: MetadataModel, current: MetadataModel)
    requires
        !previous.differs_from(current),
        previous.state == current.state,
        current.state != MediaState::Playing,
    ensures
        event_between(previous, current) is None,
{
}

/// A metadata value compared with itself changes nothing: no event, unless
/// it is playing, when only its position is reported.
pub proof fn lemma_same_snapshot(m: MetadataModel)
    ensures
        m.state != MediaState::Playing ==> event_between(m, m) is None,
        m.state == MediaState::Playing ==> event_between(m, m) == Some(
            EventModel::ProgressChanged(m.elapsed),
        ),
{
}

} // verus!
