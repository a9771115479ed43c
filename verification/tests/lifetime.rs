use symm_impl::interface::{GenericArg, InterfaceRef, TypeExpr};
use symm_impl::record::{
    ImplRecord, Member, MethodItem, Receiver, ReceiverShape, TypedArg,
};
use symm_impl::transform::mirror;

trait Distance<'a, Other> {
    fn distance(&'a self, other: &'a Other) -> f64;
}

struct Point2D<'a> {
    x: &'a f64,
    y: &'a f64,
}

struct Disk<'a> {
    center: Point2D<'a>,
    radius: &'a f64,
}

impl<'a> Distance<'a, Point2D<'a>> for Point2D<'a> {
    fn distance(&'a self, other: &'a Point2D) -> f64 {
        let dx = self.x - other.x;
        let dy = self.y - other.y;
        (dx * dx + dy * dy).sqrt()
    }
}

const BODY: &str = "{
        let p_diff = self.distance(&other.center);
        if p_diff.le(&other.radius) {
            0.0_f64
        } else {
            p_diff - other.radius
        }
    }";

const ORIGINAL: &str = "
impl<'a> Distance<'a, Disk<'a>> for Point2D<'a> {
    fn distance(&'a self, other: &'a Disk<'a>) -> f64 {
        let p_diff = self.distance(&other.center);
        if p_diff.le(&other.radius) {
            0.0_f64
        } else {
            p_diff - other.radius
        }
    }
}";

impl<'a> Distance<'a, Disk<'a>> for Point2D<'a> {
    fn distance(&'a self, other: &'a Disk<'a>) -> f64 {
        let p_diff = self.distance(&other.center);
        if p_diff.le(&other.radius) {
            0.0_f64
        } else {
            p_diff - other.radius
        }
    }
}

const MIRROR: &str = "
impl<'a> Distance<'a, Point2D<'a>> for Disk<'a> {
    #[allow(unused_mut)]
    #[inline]
    fn distance(&'a self, other: &'a Point2D<'a>) -> f64 {
        <Point2D<'a> as Distance<'a, Disk<'a>>>::distance(other, self)
    }
}";

impl<'a> Distance<'a, Point2D<'a>> for Disk<'a> {
    #[allow(unused_mut)]
    fn distance(&'a self, other: &'a Point2D<'a>) -> f64 {
        <Point2D<'a> as Distance<'a, Disk<'a>>>::distance(other, self)
    }
}

/// Appends the tokens of `stream`, one text each; brackets count as tokens.
fn flatten(stream: proc_macro2::TokenStream, list: &mut Vec<String>) {
    for tree in stream {
        match tree {
            proc_macro2::TokenTree::Group(group) => {
                let (open, close) = match group.delimiter() {
                    proc_macro2::Delimiter::Parenthesis => ("(", ")"),
                    proc_macro2::Delimiter::Brace => ("{", "}"),
                    proc_macro2::Delimiter::Bracket => ("[", "]"),
                    proc_macro2::Delimiter::None => ("", ""),
                };
                list.push(open.to_string());
                flatten(group.stream(), list);
                list.push(close.to_string());
            }
            other => list.push(other.to_string()),
        }
    }
}

/// The tokens of `text`, whatever the spacing between them.
fn tokens(text: &str) -> Vec<String> {
    let mut list = Vec::new();
    flatten(text.parse().expect("the text is a token stream"), &mut list);
    list
}

fn original() -> ImplRecord {
    let method = MethodItem::new(
        "distance",
        Some(Receiver::reference(Some("'a"), false)),
        vec![TypedArg::named(
            "other",
            false,
            TypeExpr::reference(Some("'a"), false, TypeExpr::verbatim("Disk<'a>")),
        )],
        "-> f64",
        BODY,
    );
    ImplRecord::new(
        "<'a>",
        Some(InterfaceRef::new(
            "Distance",
            vec![
                GenericArg::Lifetime("'a".to_string()),
                GenericArg::Type(TypeExpr::verbatim("Disk<'a>")),
            ],
        )),
        TypeExpr::verbatim("Point2D<'a>"),
        "",
        vec![Member::Method(method)],
    )
}

#[test]
fn test_trait_with_lifetime() {
    let record = original();
    assert_eq!(tokens(&record.to_source()), tokens(ORIGINAL));
    let mirrored = mirror(record).expect("the record is valid");
    assert_eq!(tokens(&mirrored.to_source()), tokens(MIRROR));
    assert!(syn::parse_str::<syn::ItemImpl>(&mirrored.to_source()).is_ok());
    match &mirrored.items[0] {
        Member::Method(method) => {
            assert_eq!(
                method.receiver.as_ref().map(|receiver| &receiver.shape),
                Some(&ReceiverShape::Reference { lifetime: Some("'a".to_string()), mutable: false })
            );
            assert_eq!(
                method.params[0].ty,
                TypeExpr::reference(Some("'a"), false, TypeExpr::verbatim("Point2D<'a>"))
            );
        }
        other => panic!("expected a method, found {:?}", other),
    }

    let p_x = 5.0;
    let p_y = 4.0;
    let c_x = 1.0;
    let c_y = 4.0;
    let c_r = 3.0;
    let p = Point2D { x: &p_x, y: &p_y };
    let c = Disk {
        center: Point2D { x: &c_x, y: &c_y },
        radius: &c_r,
    };
    assert_eq!(p.distance(&c), c.distance(&p));
}
