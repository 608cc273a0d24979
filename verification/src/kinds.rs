//! The small vocabularies of the ensign system: model kinds, lifecycle states,
//! alert levels, call reasons, user styles and deadband statuses.

use vstd::prelude::*;

verus! {

/// What kind of small model powers an ensign.
#[derive(Debug, Clone, Copy, PartialEq, Eq, Structural)]
pub enum ModelType {
    /// Local tiny model.
    LocalTiny,
    /// Local model with vision.
    LocalVision,
    /// Local model with audio processing.
    LocalAudio,
    /// Local JEPA predictor.
    LocalJEPA,
    /// Small remote model.
    RemoteLight,
    /// Small remote model with vision.
    RemoteVision,
}

impl ModelType {
    /// The model runs on the local machine.
    pub open spec fn spec_is_local(self) -> bool {
        match self {
            ModelType::LocalTiny | ModelType::LocalVision | ModelType::LocalAudio
            | ModelType::LocalJEPA => true,
            _ => false,
        }
    }

    /// The model can take images.
    pub open spec fn spec_supports_vision(self) -> bool {
        self is LocalVision || self is RemoteVision
    }

    /// The model can take audio.
    pub open spec fn spec_supports_audio(self) -> bool {
        self is LocalAudio
    }

    pub fn is_local(&self) -> (r: bool)
        ensures
            r == self.spec_is_local(),
    {
        match self {
            ModelType::LocalTiny | ModelType::LocalVision | ModelType::LocalAudio
            | ModelType::LocalJEPA => true,
            _ => false,
        }
    }

    pub fn supports_vision(&self) -> (r: bool)
        ensures
            r == self.spec_supports_vision(),
    {
        match self {
            ModelType::LocalVision | ModelType::RemoteVision => true,
            _ => false,
        }
    }

    pub fn supports_audio(&self) -> (r: bool)
        ensures
            r == self.spec_supports_audio(),
    {
        match self {
            ModelType::LocalAudio => true,
            _ => false,
        }
    }
}

/// The ensign's lifecycle state.
#[derive(Debug, Clone, Copy, PartialEq, Eq, Structural)]
pub enum EnsignStatus {
    /// Not called, no resources consumed.
    Dormant,
    /// Just called, orienting.
    Waking,
    /// Building story from automation rewind.
    Orienting,
    /// Actively monitoring, fine-tuning.
    YellowAlert,
    /// Deadband breached, actively intervening.
    RedAlert,
    /// Job done, writing report.
    StandingDown,
    /// Handed off to Hermes.
    Escalated,
}

/// Current alert state of the ensign.
#[derive(Debug, Clone, Copy, PartialEq, Eq, Structural)]
pub enum AlertLevel {
    /// Automation handling it fine, ensign just watching.
    Green,
    /// Ensign is fine-tuning proactively, deadband still good.
    Yellow,
    /// Deadband breached, ensign actively intervening.
    Red,
}

impl AlertLevel {
    /// Yellow or red: the ensign is on watch.
    pub open spec fn spec_is_yellow_or_above(self) -> bool {
        self is Yellow || self is Red
    }

    pub fn is_yellow_or_above(&self) -> (r: bool)
        ensures
            r == self.spec_is_yellow_or_above(),
    {
        match self {
            AlertLevel::Yellow | AlertLevel::Red => true,
            AlertLevel::Green => false,
        }
    }
}

/// Why the ensign was called.
#[derive(Debug, Clone, PartialEq)]
pub enum CallReason {
    /// Hermes proactively called before a problem.
    Preemptive(String),
    /// Deadband approaching boundary.
    DeadbandWarning(String),
    /// New user interaction started.
    NewInteraction(String),
    /// Automation running out of good options.
    AutomationStall(String),
    /// Scheduled maintenance check.
    Maintenance(String),
    /// Urgent intervention needed.
    Emergency(String),
}

/// Style of user interaction.
#[derive(Debug, Clone, Copy, PartialEq, Eq, Structural)]
pub enum UserStyle {
    Playful,
    Precise,
    Narrative,
    Socratic,
    Direct,
    Mixed,
}

/// Status of the deadband monitor.
#[derive(Debug, Clone, Copy, PartialEq, Eq, Structural)]
pub enum DeadbandStatus {
    Green,
    Yellow,
    Red,
    Breached,
}

impl DeadbandStatus {
    /// The status of a reading, from where it stands against the band: outside
    /// the bounds is a breach; otherwise the distance to the nearer bound within
    /// the red margin is red, within the warning margin is yellow, and beyond
    /// it is green.
    pub open spec fn spec_classify(outside: bool, within_red: bool, within_warning: bool) -> Self {
        if outside {
            DeadbandStatus::Breached
        } else if within_red {
            DeadbandStatus::Red
        } else if within_warning {
            DeadbandStatus::Yellow
        } else {
            DeadbandStatus::Green
        }
    }

    pub fn classify(outside: bool, within_red: bool, within_warning: bool) -> (r: Self)
        ensures
            r == Self::spec_classify(outside, within_red, within_warning),
    {
        if outside {
            DeadbandStatus::Breached
        } else if within_red {
            DeadbandStatus::Red
        } else if within_warning {
            DeadbandStatus::Yellow
        } else {
            DeadbandStatus::Green
        }
    }
}

/// A reading outside the band is a breach whatever its distance; inside it,
/// the red margin wins over the warning margin, and a reading beyond both is
/// green.
pub proof fn lemma_classify_rules(outside: bool, within_red: bool, within_warning: bool)
    ensures
        outside ==> DeadbandStatus::spec_classify(outside, within_red, within_warning)
            == DeadbandStatus::Breached,
        !outside && within_red ==> DeadbandStatus::spec_classify(outside, within_red, within_warning)
            == DeadbandStatus::Red,
        !outside && !within_red && within_warning ==> DeadbandStatus::spec_classify(
            outside,
            within_red,
            within_warning,
        ) == DeadbandStatus::Yellow,
        !outside && !within_red && !within_warning ==> DeadbandStatus::spec_classify(
            outside,
            within_red,
            within_warning,
        ) == DeadbandStatus::Green,
{
}

/// Capabilities of the model kinds: exactly the four `Local` kinds run
/// locally; exactly the two vision kinds take images; only the local audio
/// model takes audio, so an audio model is local and takes no images.
pub proof fn lemma_model_capabilities(m: ModelType)
    ensures
        m.spec_is_local() <==> !(m is RemoteLight || m is RemoteVision),
        m.spec_supports_vision() <==> (m is LocalVision || m is RemoteVision),
        m.spec_supports_audio() ==> m.spec_is_local() && !m.spec_supports_vision(),
        m.spec_supports_audio() <==> m is LocalAudio,
{
}

} // verus!
