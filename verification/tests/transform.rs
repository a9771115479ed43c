use symm_impl::interface::{GenericArg, InterfaceRef, PathArguments, TypeExpr};
use symm_impl::record::{
    ImplRecord, Member, MethodBody, MethodItem, OutputBinding, OutputTypeItem, Pattern, Receiver,
    TypedArg,
};
use symm_impl::transform::{
    mirror, mirror_member, mirror_members, mirror_method, mirror_output, mirror_type, transform,
};
use symm_impl::validate::{
    check_members, check_method, check_operands, find_symmetry_slot, same_text_opt, validate,
};

trait Distance<Other> {
    fn distance(&self, other: &Other) -> f64;
}

struct Point2D {
    x: f64,
    y: f64,
}

struct Disk {
    center: Point2D,
    radius: f64,
}

impl Distance<Point2D> for Point2D {
    fn distance(&self, other: &Point2D) -> f64 {
        let dx = self.x - other.x;
        let dy = self.y - other.y;
        (dx * dx + dy * dy).sqrt()
    }
}

impl Distance<Disk> for Point2D {
    fn distance(&self, other: &Disk) -> f64 {
        let p_diff = self.distance(&other.center);
        if p_diff.le(&other.radius) {
            0.0_f64
        } else {
            p_diff - other.radius
        }
    }
}

impl Distance<Point2D> for Disk {
    #[allow(unused_mut)]
    fn distance(&self, other: &Point2D) -> f64 {
        <Point2D as Distance<Disk>>::distance(other, self)
    }
}

fn text(text: &str) -> String {
    text.to_string()
}

fn disk() -> TypeExpr {
    TypeExpr::verbatim("Disk")
}

fn point() -> TypeExpr {
    TypeExpr::verbatim("Point2D")
}

fn interface() -> InterfaceRef {
    InterfaceRef::new("Distance", vec![GenericArg::Type(disk())])
}

fn distance() -> MethodItem {
    MethodItem::new(
        "distance",
        Some(Receiver::reference(None, false)),
        vec![TypedArg::named("other", false, TypeExpr::reference(None, false, disk()))],
        "-> f64",
        "{ 0.0 }",
    )
}

fn record() -> ImplRecord {
    ImplRecord::new("", Some(interface()), point(), "", vec![Member::Method(distance())])
}

#[test]
fn end_to_end_distance_between_point_and_disk() {
    let mirrored = mirror(record()).expect("the record is valid");
    let expected_method = MethodItem {
        attrs: vec![text("#[allow(unused_mut)]"), text("#[inline]")],
        qualifiers: String::new(),
        name: text("distance"),
        generics: String::new(),
        receiver: Some(Receiver::reference(None, false)),
        params: vec![TypedArg::named("other", false, TypeExpr::reference(None, false, point()))],
        variadic: false,
        output: text("-> f64"),
        where_clause: String::new(),
        body: MethodBody::Delegation {
            implementor: point(),
            interface: interface(),
            method: text("distance"),
            argument: text("other"),
        },
    };
    let expected = ImplRecord {
        attrs: String::new(),
        qualifiers: String::new(),
        generics: String::new(),
        interface: Some(InterfaceRef::new("Distance", vec![GenericArg::Type(point())])),
        self_ty: disk(),
        where_clause: String::new(),
        inner_attrs: String::new(),
        items: vec![Member::Method(expected_method)],
    };
    assert_eq!(mirrored, expected);

    let point = Point2D { x: 5.0, y: 4.0 };
    let disk = Disk { center: Point2D { x: 1.0, y: -2.0 }, radius: 3.0 };
    assert!((point.distance(&disk.center) - 7.2111).abs() < 1e-4);
    assert!((point.distance(&disk) - 4.2111).abs() < 1e-4);
    assert_eq!(point.distance(&disk), disk.distance(&point));
    let inside = Point2D { x: 2.0, y: -1.0 };
    assert_eq!(inside.distance(&disk), 0.0);
    assert_eq!(disk.distance(&inside), 0.0);
}

#[test]
fn mirror_is_validate_then_transform() {
    let shape = validate(record()).expect("the record is valid");
    assert_eq!(shape.path, "Distance");
    assert_eq!(shape.slot, 0);
    assert_eq!(shape.arguments, vec![GenericArg::Type(disk())]);
    assert_eq!(shape.implementor, point());
    assert_eq!(shape.items, vec![Member::Method(distance())]);
    assert_eq!(Ok(transform(shape)), mirror(record()));
}

#[test]
fn equal_records_have_equal_mirrors() {
    let first = mirror(record()).expect("the record is valid");
    let second = mirror(record()).expect("the record is valid");
    let third = mirror(record().clone()).expect("the record is valid");
    assert_eq!(first, second);
    assert_eq!(second, third);
}

#[test]
fn symmetry_slot_is_the_first_type_argument() {
    let lifetime = GenericArg::Lifetime(text("'a"));
    let constant = GenericArg::Other(text("3"));
    assert_eq!(find_symmetry_slot(&vec![]), None);
    assert_eq!(find_symmetry_slot(&vec![lifetime.clone(), constant.clone()]), None);
    assert_eq!(find_symmetry_slot(&vec![GenericArg::Type(disk())]), Some(0));
    assert_eq!(
        find_symmetry_slot(&vec![
            lifetime.clone(),
            constant.clone(),
            GenericArg::Type(disk()),
            GenericArg::Type(point()),
        ]),
        Some(2)
    );
}

#[test]
fn only_the_symmetry_slot_changes_among_the_arguments() {
    let arguments = vec![
        GenericArg::Lifetime(text("'a")),
        GenericArg::Type(disk()),
        GenericArg::Type(TypeExpr::verbatim("f64")),
        GenericArg::Other(text("Output = f64")),
    ];
    let record = ImplRecord::new(
        "<'a>",
        Some(InterfaceRef::new("Distance", arguments)),
        point(),
        "where Disk: 'a",
        vec![],
    );
    let mirrored = mirror(record).expect("the record is valid");
    assert_eq!(
        mirrored.interface,
        Some(InterfaceRef::new(
            "Distance",
            vec![
                GenericArg::Lifetime(text("'a")),
                GenericArg::Type(point()),
                GenericArg::Type(TypeExpr::verbatim("f64")),
                GenericArg::Other(text("Output = f64")),
            ]
        ))
    );
    assert_eq!(mirrored.self_ty, disk());
    assert_eq!(mirrored.generics, "<'a>");
    assert_eq!(mirrored.where_clause, "where Disk: 'a");
    assert!(mirrored.items.is_empty());
}

#[test]
fn members_of_other_kinds_pass_through() {
    let constant = Member::Other(text("const N: usize = 1;"));
    let call = Member::Other(text("declare!();"));
    let record = ImplRecord::new(
        "",
        Some(interface()),
        point(),
        "",
        vec![
            constant.clone(),
            Member::Method(distance()),
            call.clone(),
            Member::OutputType(OutputTypeItem::new("Output", TypeExpr::verbatim("f64"))),
        ],
    );
    let mirrored = mirror(record).expect("the record is valid");
    assert_eq!(mirrored.items.len(), 4);
    assert_eq!(mirrored.items[0], constant);
    assert_eq!(mirrored.items[2], call);
    assert!(matches!(mirrored.items[1], Member::Method(_)));
    assert!(matches!(mirrored.items[3], Member::OutputType(_)));
}

#[test]
fn method_keeps_all_but_the_other_type_the_body_and_the_markers() {
    let mut method = distance();
    method.attrs = vec![text("#[must_use]")];
    method.qualifiers = text("pub");
    method.generics = text("<U>");
    method.where_clause = text("where U: Copy");
    method.params[0].attrs = text("#[allow(unused)]");
    method.params[0].pattern = Pattern::Ident {
        by_ref: false,
        mutable: false,
        name: text("that"),
        subpattern: None,
    };
    let mirrored = mirror_method(method.clone(), &point(), &interface());
    assert_eq!(
        mirrored.attrs,
        vec![text("#[must_use]"), text("#[allow(unused_mut)]"), text("#[inline]")]
    );
    assert_eq!(mirrored.qualifiers, method.qualifiers);
    assert_eq!(mirrored.name, method.name);
    assert_eq!(mirrored.generics, method.generics);
    assert_eq!(mirrored.receiver, method.receiver);
    assert_eq!(mirrored.variadic, method.variadic);
    assert_eq!(mirrored.output, method.output);
    assert_eq!(mirrored.where_clause, method.where_clause);
    assert_eq!(mirrored.params.len(), 1);
    assert_eq!(mirrored.params[0].attrs, method.params[0].attrs);
    assert_eq!(mirrored.params[0].pattern, method.params[0].pattern);
    assert_eq!(mirrored.params[0].ty, TypeExpr::reference(None, false, point()));
    assert_eq!(
        mirrored.body,
        MethodBody::Delegation {
            implementor: point(),
            interface: interface(),
            method: text("distance"),
            argument: text("that"),
        }
    );
    assert_eq!(
        mirror_member(Member::Method(method), &point(), &interface()),
        Member::Method(mirrored)
    );
}

#[test]
fn other_type_becomes_the_implementing_type_behind_the_same_reference() {
    assert_eq!(mirror_type(disk(), &point()), point());
    assert_eq!(
        mirror_type(TypeExpr::reference(Some("'a"), true, disk()), &point()),
        TypeExpr::reference(Some("'a"), true, point())
    );
    let slice = TypeExpr::reference(Some("'a"), false, TypeExpr::verbatim("str"));
    assert_eq!(
        mirror_type(TypeExpr::reference(None, false, disk()), &slice),
        TypeExpr::reference(None, false, slice.clone())
    );
    assert_eq!(mirror_type(disk(), &slice), slice);
}

#[test]
fn output_type_becomes_a_projection_from_the_original() {
    let mut output = OutputTypeItem::new("Output", TypeExpr::verbatim("f64"));
    output.attrs = text("#[doc(hidden)]");
    output.generics = text("<'x>");
    let mirrored = mirror_output(output.clone(), &point(), &interface());
    assert_eq!(mirrored.attrs, output.attrs);
    assert_eq!(mirrored.qualifiers, output.qualifiers);
    assert_eq!(mirrored.name, output.name);
    assert_eq!(mirrored.generics, output.generics);
    assert_eq!(mirrored.where_clause, output.where_clause);
    assert_eq!(
        mirrored.binding,
        OutputBinding::Projection {
            implementor: point(),
            interface: interface(),
            name: text("Output"),
        }
    );
    let members = mirror_members(
        vec![Member::OutputType(output), Member::Other(text("const N: u8 = 0;"))],
        &point(),
        &interface(),
    );
    assert_eq!(
        members,
        vec![Member::OutputType(mirrored), Member::Other(text("const N: u8 = 0;"))]
    );
}

#[test]
fn checks_accept_what_is_taken_alike() {
    let by_reference = Receiver::reference(Some("'a"), true);
    let other = TypedArg::named("other", false, TypeExpr::reference(Some("'a"), true, disk()));
    assert_eq!(check_operands(&by_reference.shape, &other, 0), None);
    let by_value = Receiver::value(true);
    let other = TypedArg::named("other", true, disk());
    assert_eq!(check_operands(&by_value.shape, &other, 0), None);
    assert_eq!(check_method(&distance(), 3), None);
    assert_eq!(
        check_members(&vec![Member::Other(text("const N: u8 = 0;")), Member::Method(distance())]),
        None
    );
    assert!(same_text_opt(&None, &None));
    assert!(same_text_opt(&Some(text("'a")), &Some(text("'a"))));
    assert!(!same_text_opt(&Some(text("'a")), &Some(text("'b"))));
    assert!(!same_text_opt(&Some(text("'a")), &None));
    assert!(!same_text_opt(&None, &Some(text("'a"))));
}

#[test]
fn copies_are_equal_to_what_they_copy() {
    let ty = TypeExpr::reference(Some("'a"), true, TypeExpr::reference(None, false, disk()));
    assert_eq!(ty.clone(), ty);
    let interface = InterfaceRef::new(
        "Distance",
        vec![
            GenericArg::Lifetime(text("'a")),
            GenericArg::Type(ty),
            GenericArg::Other(text("N")),
        ],
    );
    assert_eq!(interface.clone(), interface);
    let function = InterfaceRef {
        negated: true,
        path: text("Fn"),
        arguments: PathArguments::Parenthesized(text("(u8)")),
    };
    assert_eq!(function.clone(), function);
    let bare = InterfaceRef { negated: false, path: text("T"), arguments: PathArguments::Absent };
    assert_eq!(bare.clone(), bare);
}
