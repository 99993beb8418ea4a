use telera::ir::{CustomElementSpec, DataSrc};
use telera::md::{MdKind, MdNode};

fn para(keyword: &str, arg: &str) -> MdNode {
    MdNode {
        kind: MdKind::Paragraph,
        children: vec![
            MdNode { kind: MdKind::InlineCode(keyword.to_string()), children: Vec::new() },
            MdNode { kind: MdKind::Text(arg.to_string()), children: Vec::new() },
        ],
    }
}

#[test]
fn shape_parameters_that_do_not_apply_are_ignored() {
    // `radius` is no parameter of a line, and a circle takes none
    let line = CustomElementSpec::line();
    assert_eq!(line.clone().apply_param("radius", &para("radius", " 5")), line);
    assert_eq!(CustomElementSpec::Circle.apply_param("thickness", &para("thickness", " 3")), CustomElementSpec::Circle);
    // an arc takes no `from` point and no control points
    let arc = CustomElementSpec::arc();
    assert_eq!(arc.clone().apply_param("from", &para("from", " top-left")), arc);
    assert_eq!(arc.clone().apply_param("ctrl1-x", &para("ctrl1-x", " 2")), arc);
    // a camera keyword the render window does not know changes nothing
    let rw = CustomElementSpec::render_window();
    assert_eq!(rw.clone().apply_param("radius", &para("radius", " 2")), rw);
    // a parameter the shape takes, without a number, changes nothing either
    let ring = CustomElementSpec::ring();
    assert_eq!(ring.clone().apply_param("thickness", &para("thickness", " wide")), ring);
    // and with one, it is set
    assert_eq!(
        ring.apply_param("thickness", &para("thickness", " 3")),
        CustomElementSpec::Ring { thickness: DataSrc::Static("3".to_string()) }
    );
}
