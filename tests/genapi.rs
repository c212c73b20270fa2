use camctl::genapi::{
    classify, is_chunk, Category, CategoryMsg, Entry, Feature, GenApi, Interfaces, Kind, Msg, Node,
    NodeMsg, Presentation, Target, presentation,
};
use camctl::features::Features;
use camctl::identity::CameraId;
use camctl::{Error, Rejected};

fn none() -> Interfaces {
    Interfaces { boolean: false, integer: false, float: false, enumeration: false, command: false, string: false, category: false }
}

fn feature(handle: u32, name: &str, interfaces: Interfaces) -> Feature<u32> {
    Feature { handle, name: name.to_string(), interfaces, entries: vec![], children: vec![] }
}

fn category(handle: u32, name: &str, children: Vec<Feature<u32>>) -> Feature<u32> {
    let mut f = feature(handle, name, Interfaces { category: true, ..none() });
    f.children = children;
    f
}

fn pixel_format_feature() -> Feature<u32> {
    let mut f = feature(3, "PixelFormat", Interfaces { enumeration: true, ..none() });
    f.entries = vec![Entry::new("Mono8".to_string(), 17301505), Entry::new("RGB8".to_string(), 35127316)];
    f
}

fn sample_root() -> Feature<u32> {
    category(0, "Root", vec![
        category(1, "ImageFormatControl", vec![
            feature(2, "Width", Interfaces { integer: true, ..none() }),
            pixel_format_feature(),
            feature(4, "ChunkModeActive", Interfaces { boolean: true, ..none() }),
            feature(5, "Opaque", none()),
            feature(6, "ReverseX", Interfaces { boolean: true, ..none() }),
            category(7, "Nested", vec![feature(8, "TriggerSoftware", Interfaces { command: true, ..none() })]),
        ]),
        feature(9, "NotACategory", Interfaces { integer: true, ..none() }),
        category(10, "DeviceControl", vec![feature(11, "DeviceUserID", Interfaces { string: true, ..none() })]),
    ])
}

#[test]
fn classification_follows_interface_order() {
    assert_eq!(classify(&none()), None);
    let all = Interfaces { boolean: true, integer: true, float: true, enumeration: true, command: true, string: true, category: true };
    assert_eq!(classify(&all), Some(Kind::Boolean));
    assert_eq!(classify(&Interfaces { integer: true, float: true, ..none() }), Some(Kind::Integer));
    assert_eq!(classify(&Interfaces { enumeration: true, category: true, ..none() }), Some(Kind::Enumeration));
    assert_eq!(classify(&Interfaces { string: true, category: true, ..none() }), Some(Kind::String));
    assert_eq!(classify(&Interfaces { category: true, ..none() }), Some(Kind::Category));
}

#[test]
fn chunk_names() {
    assert!(is_chunk("ChunkModeActive"));
    assert!(is_chunk("Chunk"));
    assert!(!is_chunk("Chun"));
    assert!(!is_chunk("chunkX"));
    assert!(!is_chunk("Width"));
}

#[test]
fn tree_keeps_only_known_non_chunk_features_in_order() {
    let g = GenApi::new(Some(sample_root())).unwrap();
    let tops = g.categories();
    assert_eq!(tops.len(), 2);
    assert_eq!(tops[0].name, "ImageFormatControl");
    assert!(!tops[0].expanded);
    let kinds: Vec<&str> = tops[0].features.iter().map(|n| match n {
        Node::Integer(l) => l.name.as_str(),
        Node::Enumeration(e) => e.name.as_str(),
        Node::Boolean(l) => l.name.as_str(),
        Node::Category(c) => c.name.as_str(),
        _ => "?",
    }).collect();
    assert_eq!(kinds, vec!["Width", "PixelFormat", "ReverseX", "Nested"]);
    match &tops[0].features[3] {
        Node::Category(c) => {
            assert_eq!(c.features.len(), 1);
            assert!(matches!(c.features[0], Node::Command(_)));
        }
        _ => panic!("expected a category"),
    }
    assert_eq!(tops[1].handle, 10);
}

#[test]
fn missing_or_non_category_root_is_internal_error() {
    assert!(matches!(GenApi::<u32>::new(None), Err(Error::InternalError(_))));
    let root = feature(0, "Root", Interfaces { integer: true, ..none() });
    assert!(matches!(GenApi::new(Some(root)), Err(Error::InternalError(_))));
}

#[test]
fn expand_toggles_without_target() {
    let mut g = GenApi::new(Some(sample_root())).unwrap();
    assert!(g.update(Msg::Category(0, CategoryMsg::Expand)).is_none());
    assert!(g.categories()[0].expanded);
    assert!(g.update(Msg::Category(0, CategoryMsg::Expand)).is_none());
    assert!(!g.categories()[0].expanded);
}

#[test]
fn messages_reach_their_node() {
    let mut g = GenApi::new(Some(sample_root())).unwrap();
    let t = g.update(Msg::Category(0, CategoryMsg::Node(0, Box::new(NodeMsg::Integer(640)))));
    assert!(matches!(t, Some(Target::Integer(2, 640))));
    let t = g.update(Msg::Category(0, CategoryMsg::Node(2, Box::new(NodeMsg::Bool(true)))));
    assert!(matches!(t, Some(Target::Boolean(6, true))));
    let nested = NodeMsg::Category(CategoryMsg::Node(0, Box::new(NodeMsg::Execute)));
    let t = g.update(Msg::Category(0, CategoryMsg::Node(3, Box::new(nested))));
    assert!(matches!(t, Some(Target::Command(8))));
    let t = g.update(Msg::Category(1, CategoryMsg::Node(0, Box::new(NodeMsg::String("cam".to_string())))));
    assert!(matches!(t, Some(Target::String(11, ref s)) if s == "cam"));
}

#[test]
fn mismatched_or_misplaced_messages_are_ignored() {
    let mut g = GenApi::new(Some(sample_root())).unwrap();
    assert!(g.update(Msg::Category(0, CategoryMsg::Node(0, Box::new(NodeMsg::Bool(true))))).is_none());
    assert!(g.update(Msg::Category(0, CategoryMsg::Node(9, Box::new(NodeMsg::Execute)))).is_none());
    assert!(g.update(Msg::Category(5, CategoryMsg::Expand)).is_none());
    let nested_expand = NodeMsg::Category(CategoryMsg::Expand);
    assert!(g.update(Msg::Category(0, CategoryMsg::Node(3, Box::new(nested_expand)))).is_none());
    match &g.categories()[0].features[3] {
        Node::Category(c) => assert!(c.expanded),
        _ => panic!("expected a category"),
    }
}

#[test]
fn enumeration_is_written_by_code() {
    let mut g = GenApi::new(Some(sample_root())).unwrap();
    let known = g.update(Msg::Category(0, CategoryMsg::Node(1, Box::new(NodeMsg::Enumeration(35127316))))).unwrap();
    assert!(matches!(known.resolve(true), Ok(Some(Target::Enumeration(3, 35127316, true)))));
}

#[test]
fn unknown_enumeration_code_is_range_error() {
    let mut g = GenApi::new(Some(sample_root())).unwrap();
    let t = g.update(Msg::Category(0, CategoryMsg::Node(1, Box::new(NodeMsg::Enumeration(99))))).unwrap();
    assert!(matches!(t, Target::Enumeration(3, 99, false)));
    assert_eq!(t.resolve(true).err(), Some(Error::RangeError(Rejected::Code(99))));
}

#[test]
fn write_to_read_only_node_is_a_successful_no_op() {
    let mut g = GenApi::new(Some(sample_root())).unwrap();
    let t = g.update(Msg::Category(0, CategoryMsg::Node(0, Box::new(NodeMsg::Integer(1))))).unwrap();
    assert!(matches!(t.resolve(false), Ok(None)));
    let unknown = g.update(Msg::Category(0, CategoryMsg::Node(1, Box::new(NodeMsg::Enumeration(99))))).unwrap();
    assert!(matches!(unknown.resolve(false), Ok(None)));
}

#[test]
fn entry_accessors() {
    let e = Entry::new("Continuous".to_string(), 2);
    assert_eq!(e.name(), "Continuous");
    assert_eq!(e.value(), 2);
}

#[test]
fn category_alone() {
    let c = Category::new(category(1, "C", vec![feature(2, "ChunkX", Interfaces { integer: true, ..none() })]));
    assert!(c.features.is_empty());
    assert_eq!(c.name, "C");
}

#[test]
fn features_update_unknown_device() {
    let mut f: Features<u32> = Features::new();
    let id = CameraId(4);
    assert!(matches!(f.update(id, Msg::Category(0, CategoryMsg::Expand)), Err(Error::NotFound(_))));
    assert!(matches!(f.load(id, None), Err(Error::InternalError(_))));
    f.load(id, Some(sample_root())).unwrap();
    let t = f.update(id, Msg::Category(0, CategoryMsg::Node(0, Box::new(NodeMsg::Integer(8))))).unwrap();
    assert!(matches!(t, Some(Target::Integer(2, 8))));
    f.forget(id);
    assert!(f.get(id).is_none());
}

#[test]
fn presentation_depends_on_live_access() {
    assert_eq!(presentation(Kind::Integer, false, true), Presentation::NotAvailable);
    assert_eq!(presentation(Kind::Integer, true, true), Presentation::Editable);
    assert_eq!(presentation(Kind::Enumeration, true, false), Presentation::ReadOnly);
    assert_eq!(presentation(Kind::Command, false, true), Presentation::Editable);
    assert_eq!(presentation(Kind::Command, true, false), Presentation::NotAvailable);
    assert_eq!(presentation(Kind::Category, false, false), Presentation::Editable);
}
