//! The announcement of a scene as an entity of the hub.

use vstd::prelude::*;
use vstd::string::StringExecFns;

verus! {

/// What every announced entity has.
#[derive(Debug)]
pub struct EntityConfig {
    pub unique_id: String,
}

/// A scene as the hub is told of it: pressing it publishes `payload_on` to
/// `command_topic`. A scene has no state to report.
#[derive(Debug)]
pub struct SceneConfig {
    pub base: EntityConfig,
    pub command_topic: String,
    pub payload_on: String,
}

impl SceneConfig {
    /// The topic under which a scene is announced, below a discovery prefix:
    /// the prefix, `/scene/`, the unique identity of the scene, `/config`.
    pub open spec fn spec_config_topic(self, discovery_prefix: Seq<char>) -> Seq<char> {
        discovery_prefix + "/scene/"@ + self.base.unique_id@ + "/config"@
    }

    /// The topic under which this scene is announced, below the discovery
    /// prefix of the hub.
    pub fn config_topic(&self, discovery_prefix: &str) -> (topic: String)
        ensures
            topic@ == self.spec_config_topic(discovery_prefix@),
    {
        let mut topic = String::from_str(discovery_prefix);
        topic.append("/scene/");
        topic.append(self.base.unique_id.as_str());
        topic.append("/config");
        topic
    }
}

} // verus!
