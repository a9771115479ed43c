use symm_impl::interface::{GenericArg, InterfaceRef, TypeExpr};
use symm_impl::record::{ImplRecord, Member, MethodBody, MethodItem, Receiver, TypedArg};
use symm_impl::transform::mirror;

trait Distance<Other> {
    fn distance(&self, other: &Other) -> f64;
}

struct Point2D {
    x: f64,
    y: f64,
}

struct Disk {
    center: Point2D,
    radius: f64,
}

impl Distance<Point2D> for Point2D {
    fn distance(&self, other: &Point2D) -> f64 {
        let dx = self.x - other.x;
        let dy = self.y - other.y;
        (dx * dx + dy * dy).sqrt()
    }
}

impl Distance<Disk> for Point2D {
    fn distance(&self, other: &Disk) -> f64 {
        let p_diff = self.distance(&other.center);
        if p_diff.le(&other.radius) {
            0.0_f64
        } else {
            p_diff - other.radius
        }
    }
}

impl Distance<Point2D> for Disk {
    #[allow(unused_mut)]
    fn distance(&self, other: &Point2D) -> f64 {
        <Point2D as Distance<Disk>>::distance(other, self)
    }
}

const BODY: &str = "{
        let p_diff = self.distance(&other.center);
        if p_diff.le(&other.radius) {
            0.0_f64
        } else {
            p_diff - other.radius
        }
    }";

const ORIGINAL: &str = "
impl inner::inner::Distance<inner::inner::Disk> for inner::inner::Point2D {
    fn distance(&self, other: &inner::inner::Disk) -> f64 {
        let p_diff = self.distance(&other.center);
        if p_diff.le(&other.radius) {
            0.0_f64
        } else {
            p_diff - other.radius
        }
    }
}";

const MIRROR: &str = "
impl inner::inner::Distance<inner::inner::Point2D> for inner::inner::Disk {
    #[allow(unused_mut)]
    #[inline]
    fn distance(&self, other: &inner::inner::Point2D) -> f64 {
        <inner::inner::Point2D as inner::inner::Distance<inner::inner::Disk>>::distance(other, self)
    }
}";

/// Appends the tokens of `stream`, one text each; brackets count as tokens.
fn flatten(stream: proc_macro2::TokenStream, list: &mut Vec<String>) {
    for tree in stream {
        match tree {
            proc_macro2::TokenTree::Group(group) => {
                let (open, close) = match group.delimiter() {
                    proc_macro2::Delimiter::Parenthesis => ("(", ")"),
                    proc_macro2::Delimiter::Brace => ("{", "}"),
                    proc_macro2::Delimiter::Bracket => ("[", "]"),
                    proc_macro2::Delimiter::None => ("", ""),
                };
                list.push(open.to_string());
                flatten(group.stream(), list);
                list.push(close.to_string());
            }
            other => list.push(other.to_string()),
        }
    }
}

/// The tokens of `text`, whatever the spacing between them.
fn tokens(text: &str) -> Vec<String> {
    let mut list = Vec::new();
    flatten(text.parse().expect("the text is a token stream"), &mut list);
    list
}

fn interface() -> InterfaceRef {
    InterfaceRef::new(
        "inner::inner::Distance",
        vec![GenericArg::Type(TypeExpr::verbatim("inner::inner::Disk"))],
    )
}

fn original() -> ImplRecord {
    let method = MethodItem::new(
        "distance",
        Some(Receiver::reference(None, false)),
        vec![TypedArg::named(
            "other",
            false,
            TypeExpr::reference(None, false, TypeExpr::verbatim("inner::inner::Disk")),
        )],
        "-> f64",
        BODY,
    );
    ImplRecord::new(
        "",
        Some(interface()),
        TypeExpr::verbatim("inner::inner::Point2D"),
        "",
        vec![Member::Method(method)],
    )
}

#[test]
fn test_plain_type_inside_mod() {
    let record = original();
    assert_eq!(tokens(&record.to_source()), tokens(ORIGINAL));
    let mirrored = mirror(record).expect("the record is valid");
    assert_eq!(tokens(&mirrored.to_source()), tokens(MIRROR));
    assert!(syn::parse_str::<syn::ItemImpl>(&mirrored.to_source()).is_ok());
    match &mirrored.items[0] {
        Member::Method(method) => assert_eq!(
            method.body,
            MethodBody::Delegation {
                implementor: TypeExpr::verbatim("inner::inner::Point2D"),
                interface: interface(),
                method: "distance".to_string(),
                argument: "other".to_string(),
            }
        ),
        other => panic!("expected a method, found {:?}", other),
    }

    let p = Point2D { x: 5.0, y: 4.0 };
    let c = Disk {
        center: Point2D { x: 1.0, y: -2.0 },
        radius: 3.0,
    };
    assert_eq!(p.distance(&c), c.distance(&p));
}
