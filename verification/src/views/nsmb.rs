use vstd::prelude::*;
use vstd::view::View as _;

verus! {

/// Address of the pointer to the player actor.
pub const PLAYER_ADDRESS: u32 = 0x0208b35c;

/// Address of the scene graph.
pub const SCENE_GRAPH_ADDRESS: u32 = 0x0208fb0c;

/// The class whose layout describes the scene object with the given id.
pub open spec fn object_class_name_of(object_id: u32) -> Seq<char> {
    if object_id == 0 {
        "BootScene"@
    } else if object_id == 1 {
        "Scene"@
    } else if object_id == 2 {
        "DebugScene"@
    } else if object_id == 3 {
        "StageScene"@
    } else if object_id == 4 {
        "MainMenuScene"@
    } else if object_id <= 17 {
        "Scene"@
    } else {
        "Base"@
    }
}

/// Name of the class that a scene object with id `object_id` is an instance of.
pub fn get_object_class_name(object_id: u32) -> (name: &'static str)
    ensures
        name@ == object_class_name_of(object_id),
{
    match object_id {
        0 => "BootScene",
        1 => "Scene",
        2 => "DebugScene",
        3 => "StageScene",
        4 => "MainMenuScene",
        5..=17 => "Scene",
        _ => "Base",
    }
}


/// How a window finds the object it shows.
#[derive(Clone, Copy, Debug, PartialEq, Eq)]
pub enum ObjectRead {
    /// The object of class `struct_name` lies at `address`.
    Direct { struct_name: &'static str, address: u32 },
    /// A pointer at `address` gives where the object of class `struct_name` lies.
    ThroughPointer { struct_name: &'static str, address: u32 },
}

/// A window that shows one object of a fixed class.
#[derive(Clone, Copy, Debug)]
pub struct BasicWindow {
    pub open: bool,
    pub title: &'static str,
    pub struct_name: &'static str,
    pub address: u32,
    pub pointer: bool,
}

impl BasicWindow {
    /// How this window reads its object: through a pointer at its address
    /// when it is a pointer window, directly at its address otherwise.
    pub fn read_plan(&self) -> (plan: ObjectRead)
        ensures
            self.pointer ==> plan == (ObjectRead::ThroughPointer {
                struct_name: self.struct_name,
                address: self.address,
            }),
            !self.pointer ==> plan == (ObjectRead::Direct {
                struct_name: self.struct_name,
                address: self.address,
            }),
    {
        if self.pointer {
            ObjectRead::ThroughPointer { struct_name: self.struct_name, address: self.address }
        } else {
            ObjectRead::Direct { struct_name: self.struct_name, address: self.address }
        }
    }
}

/// The window that follows the scene graph to the current scene.
#[derive(Clone, Copy, Debug)]
pub struct SceneWindow {
    pub open: bool,
}

/// All windows of the New Super Mario Bros. view.
#[derive(Clone, Copy, Debug)]
pub struct Windows {
    pub basic_windows: [BasicWindow; 2],
    pub scene: SceneWindow,
}

impl Windows {
    /// The windows as the view opens: all closed, the player read through
    /// its pointer and the scene graph read in place.
    pub open spec fn is_initial(self) -> bool {
        &&& !self.scene.open
        &&& !self.basic_windows[0].open
        &&& self.basic_windows[0].title@ == "Player"@
        &&& self.basic_windows[0].struct_name@ == "PlayerActor"@
        &&& self.basic_windows[0].address == PLAYER_ADDRESS
        &&& self.basic_windows[0].pointer
        &&& !self.basic_windows[1].open
        &&& self.basic_windows[1].title@ == "SceneGraph"@
        &&& self.basic_windows[1].struct_name@ == "SceneGraph"@
        &&& self.basic_windows[1].address == SCENE_GRAPH_ADDRESS
        &&& !self.basic_windows[1].pointer
    }
}

impl Default for Windows {
    fn default() -> (windows: Self)
        ensures
            windows.is_initial(),
    {
        Windows {
            scene: SceneWindow { open: false },
            basic_windows: [
                BasicWindow {
                    open: false,
                    title: "Player",
                    struct_name: "PlayerActor",
                    address: PLAYER_ADDRESS,
                    pointer: true,
                },
                BasicWindow {
                    open: false,
                    title: "SceneGraph",
                    struct_name: "SceneGraph",
                    address: SCENE_GRAPH_ADDRESS,
                    pointer: false,
                },
            ],
        }
    }
}

/// The New Super Mario Bros. view: its windows. The connection to the
/// game is held beside it by the caller.
pub struct View {
    pub windows: Windows,
}

impl View {
    /// A view with all windows in their initial state.
    pub fn new() -> (view: View)
        ensures
            view.windows.is_initial(),
    {
        View { windows: Windows::default() }
    }

    /// Whether leaving the game means telling the update loop of the
    /// connection to disconnect and waiting for it: only while the
    /// connection still runs; otherwise leaving is done at once.
    pub fn exit(&self, client_running: bool) -> (disconnect: bool)
        ensures
            disconnect == client_running,
    {
        client_running
    }
}


/// Where the walk from the scene graph to the current scene stands.
#[derive(Clone, Copy, Debug, PartialEq, Eq)]
pub enum SceneStage {
    /// Waiting for the scene graph.
    Graph,
    /// Waiting for the graph's `root` field.
    Root,
    /// Waiting for the root scene node.
    Node,
    /// Waiting for the node's `object` field.
    Object,
    /// Waiting for the generic scene object at `scene`.
    Scene { scene: u32 },
    /// Waiting for the `object_id` field of the scene object at `scene`.
    ObjectId { scene: u32 },
    /// Waiting for the scene object at its concrete class.
    Concrete,
    /// Nothing more to read.
    Finished,
}

/// What the scene window does next.
#[derive(Debug)]
pub enum SceneStep {
    /// Read the object of class `struct_name` at `address`.
    ReadObject { struct_name: &'static str, address: u32 },
    /// Read the 32-bit integer field `field` of the object read last.
    ReadField { field: &'static str },
    /// Show `message` in place of the scene.
    ShowError { message: String },
    /// Render the object read last.
    Render,
}

/// A step of the scene window with its texts as sequences of characters.
pub enum SceneStepView {
    ReadObject { struct_name: Seq<char>, address: u32 },
    ReadField { field: Seq<char> },
    ShowError { message: Seq<char> },
    Render,
}

impl vstd::view::View for SceneStep {
    type V = SceneStepView;

    open spec fn view(&self) -> SceneStepView {
        match self {
            SceneStep::ReadObject { struct_name, address } => SceneStepView::ReadObject {
                struct_name: struct_name@,
                address: *address,
            },
            SceneStep::ReadField { field } => SceneStepView::ReadField { field: field@ },
            SceneStep::ShowError { message } => SceneStepView::ShowError { message: message@ },
            SceneStep::Render => SceneStepView::Render,
        }
    }
}

/// Stages that wait for an object to be read.
pub open spec fn awaits_object(stage: SceneStage) -> bool {
    match stage {
        SceneStage::Graph | SceneStage::Node | SceneStage::Scene { .. } | SceneStage::Concrete => true,
        _ => false,
    }
}

/// Stages that wait for a field to be read.
pub open spec fn awaits_field(stage: SceneStage) -> bool {
    match stage {
        SceneStage::Root | SceneStage::Object | SceneStage::ObjectId { .. } => true,
        _ => false,
    }
}

/// The first step of the walk: read the scene graph.
pub open spec fn scene_walk_start() -> (SceneStage, SceneStepView) {
    (
        SceneStage::Graph,
        SceneStepView::ReadObject { struct_name: "SceneGraph"@, address: SCENE_GRAPH_ADDRESS },
    )
}

/// Stage and step after an object read has ended with `outcome`: an error
/// message ends the walk and is shown; a success asks for the next field,
/// or, for the scene at its concrete class, renders it.
pub open spec fn after_object(stage: SceneStage, outcome: Result<(), Seq<char>>) -> (
    SceneStage,
    SceneStepView,
) {
    match outcome {
        Err(message) => (SceneStage::Finished, SceneStepView::ShowError { message }),
        Ok(()) => match stage {
            SceneStage::Graph => (SceneStage::Root, SceneStepView::ReadField { field: "root"@ }),
            SceneStage::Node => (SceneStage::Object, SceneStepView::ReadField { field: "object"@ }),
            SceneStage::Scene { scene } => (
                SceneStage::ObjectId { scene },
                SceneStepView::ReadField { field: "object_id"@ },
            ),
            _ => (SceneStage::Finished, SceneStepView::Render),
        },
    }
}

/// Stage and step after a field read has given `value`: a missing field
/// ends the walk with a code naming the field; a value is followed to the
/// next object.
pub open spec fn after_field(stage: SceneStage, value: Option<u32>) -> (SceneStage, SceneStepView) {
    match value {
        None => (
            SceneStage::Finished,
            SceneStepView::ShowError {
                message: match stage {
                    SceneStage::Root => "ERR1"@,
                    SceneStage::Object => "ERR2"@,
                    _ => "ERR3"@,
                },
            },
        ),
        Some(v) => match stage {
            SceneStage::Root => (
                SceneStage::Node,
                SceneStepView::ReadObject { struct_name: "SceneNode"@, address: v },
            ),
            SceneStage::Object => (
                SceneStage::Scene { scene: v },
                SceneStepView::ReadObject { struct_name: "Scene"@, address: v },
            ),
            SceneStage::ObjectId { scene } => (
                SceneStage::Concrete,
                SceneStepView::ReadObject { struct_name: object_class_name_of(v), address: scene },
            ),
            _ => (SceneStage::Finished, SceneStepView::Render),
        },
    }
}

/// The walk from the scene graph, through its root node and the node's
/// object, to the current scene read at its concrete class.
pub struct SceneWalk {
    pub stage: SceneStage,
}

impl SceneWalk {
    /// Starts the walk.
    pub fn start() -> (started: (SceneWalk, SceneStep))
        ensures
            (started.0.stage, started.1@) == scene_walk_start(),
    {
        (
            SceneWalk { stage: SceneStage::Graph },
            SceneStep::ReadObject { struct_name: "SceneGraph", address: SCENE_GRAPH_ADDRESS },
        )
    }

    /// Whether the walk waits for an object read.
    pub fn awaits_object(&self) -> (awaits: bool)
        ensures
            awaits == awaits_object(self.stage),
    {
        match self.stage {
            SceneStage::Graph | SceneStage::Node | SceneStage::Scene { .. } | SceneStage::Concrete => true,
            _ => false,
        }
    }

    /// Whether the walk waits for a field read.
    pub fn awaits_field(&self) -> (awaits: bool)
        ensures
            awaits == awaits_field(self.stage),
    {
        match self.stage {
            SceneStage::Root | SceneStage::Object | SceneStage::ObjectId { .. } => true,
            _ => false,
        }
    }

    /// Advances the walk after the object it asked for was read, or failed
    /// to be read with the given message.
    pub fn object_read(&mut self, outcome: Result<(), String>) -> (step: SceneStep)
        requires
            awaits_object(old(self).stage),
        ensures
            (final(self).stage, step@) == after_object(
                old(self).stage,
                match outcome {
                    Ok(()) => Ok(()),
                    Err(message) => Err(message@),
                },
            ),
    {
        match outcome {
            Err(message) => {
                self.stage = SceneStage::Finished;
                SceneStep::ShowError { message }
            },
            Ok(()) => match self.stage {
                SceneStage::Graph => {
                    self.stage = SceneStage::Root;
                    SceneStep::ReadField { field: "root" }
                },
                SceneStage::Node => {
                    self.stage = SceneStage::Object;
                    SceneStep::ReadField { field: "object" }
                },
                SceneStage::Scene { scene } => {
                    self.stage = SceneStage::ObjectId { scene };
                    SceneStep::ReadField { field: "object_id" }
                },
                _ => {
                    self.stage = SceneStage::Finished;
                    SceneStep::Render
                },
            },
        }
    }

    /// Advances the walk after the field it asked for was read, `None`
    /// when the object has no such integer field.
    pub fn field_read(&mut self, value: Option<u32>) -> (step: SceneStep)
        requires
            awaits_field(old(self).stage),
        ensures
            (final(self).stage, step@) == after_field(old(self).stage, value),
    {
        match value {
            None => {
                let message = match self.stage {
                    SceneStage::Root => String::from_str("ERR1"),
                    SceneStage::Object => String::from_str("ERR2"),
                    _ => String::from_str("ERR3"),
                };
                self.stage = SceneStage::Finished;
                SceneStep::ShowError { message }
            },
            Some(v) => match self.stage {
                SceneStage::Root => {
                    self.stage = SceneStage::Node;
                    SceneStep::ReadObject { struct_name: "SceneNode", address: v }
                },
                SceneStage::Object => {
                    self.stage = SceneStage::Scene { scene: v };
                    SceneStep::ReadObject { struct_name: "Scene", address: v }
                },
                SceneStage::ObjectId { scene } => {
                    self.stage = SceneStage::Concrete;
                    SceneStep::ReadObject { struct_name: get_object_class_name(v), address: scene }
                },
                _ => {
                    self.stage = SceneStage::Finished;
                    SceneStep::Render
                },
            },
        }
    }
}

/// When every read succeeds, the scene window reads the scene graph, its
/// `root` field, the scene node there, its `object` field, the generic scene
/// object there and its `object_id` field, then reads that same object at
/// the class its id names, and renders it.
pub proof fn scene_walk_follows_the_graph(root: u32, scene: u32, object_id: u32)
    ensures
        ({
            let (s0, a0) = scene_walk_start();
            let (s1, a1) = after_object(s0, Ok(()));
            let (s2, a2) = after_field(s1, Some(root));
            let (s3, a3) = after_object(s2, Ok(()));
            let (s4, a4) = after_field(s3, Some(scene));
            let (s5, a5) = after_object(s4, Ok(()));
            let (s6, a6) = after_field(s5, Some(object_id));
            let (s7, a7) = after_object(s6, Ok(()));
            &&& a0 == SceneStepView::ReadObject { struct_name: "SceneGraph"@, address: SCENE_GRAPH_ADDRESS }
            &&& a1 == SceneStepView::ReadField { field: "root"@ }
            &&& a2 == SceneStepView::ReadObject { struct_name: "SceneNode"@, address: root }
            &&& a3 == SceneStepView::ReadField { field: "object"@ }
            &&& a4 == SceneStepView::ReadObject { struct_name: "Scene"@, address: scene }
            &&& a5 == SceneStepView::ReadField { field: "object_id"@ }
            &&& a6 == SceneStepView::ReadObject {
                struct_name: object_class_name_of(object_id),
                address: scene,
            }
            &&& a7 == SceneStepView::Render
            &&& s7 == SceneStage::Finished
        }),
{
}

/// Any failed read ends the walk: the failure is shown and nothing more
/// is read.
pub proof fn scene_walk_stops_at_a_failure(stage: SceneStage, message: Seq<char>)
    ensures
        after_object(stage, Err(message)) == (
            SceneStage::Finished,
            SceneStepView::ShowError { message },
        ),
        awaits_field(stage) ==> after_field(stage, None).0 == SceneStage::Finished,
        awaits_field(stage) ==> after_field(stage, None).1 is ShowError,
        !awaits_object(SceneStage::Finished),
        !awaits_field(SceneStage::Finished),
{
}

} // verus!
