use vstd::prelude::*;

use crate::key::MAX_KEYS;

verus! {

/// The physical keys that the display listens to.
#[derive(Clone, Copy, Debug, PartialEq, Eq, Structural)]
pub enum PhysicalKey {
    Space,
    Enter,
    Backspace,
    Tab,
    Escape,
    Num0,
    Num1,
    Num2,
    Num3,
    Num4,
    Num5,
    Num6,
    Num7,
    Num8,
    Num9,
    A,
    B,
    C,
    D,
    E,
    F,
    G,
    H,
    I,
    J,
    K,
    L,
    M,
    N,
    O,
    P,
    Q,
    R,
    S,
    T,
    U,
    V,
    W,
    X,
    Y,
    Z,
}

/// The mapping table: the display label of a key and the lamps it lights,
/// or `None` for a key that the table does not hold.
pub open spec fn binding(k: PhysicalKey) -> Option<(Seq<char>, Seq<usize>)> {
    match k {
        PhysicalKey::Space => Some(("SPC"@, seq![7usize])),
        PhysicalKey::Enter => Some(("RET"@, seq![6usize])),
        PhysicalKey::Backspace => Some(("BSPC"@, seq![4usize])),
        PhysicalKey::Tab => Some(("TAB"@, seq![5usize])),
        PhysicalKey::Escape => Some(("ESC"@, seq![5usize, 6])),
        PhysicalKey::Num1 => Some(("1"@, seq![0usize, 1, 11])),
        PhysicalKey::Num2 => Some(("2"@, seq![0usize, 1, 2, 11])),
        PhysicalKey::Num3 => Some(("3"@, seq![0usize, 2, 11])),
        PhysicalKey::Num4 => Some(("4"@, seq![0usize, 2, 3, 11])),
        PhysicalKey::Num5 => Some(("5"@, seq![0usize, 3, 11])),
        PhysicalKey::Num6 => Some(("6"@, seq![0usize, 7, 11])),
        PhysicalKey::Num7 => Some(("7"@, seq![0usize, 7, 8, 11])),
        PhysicalKey::Num8 => Some(("8"@, seq![0usize, 8, 11])),
        PhysicalKey::Num9 => Some(("9"@, seq![0usize, 8, 9, 11])),
        PhysicalKey::Num0 => Some(("0"@, seq![0usize, 9, 11])),
        PhysicalKey::Q => Some(("Q"@, seq![11usize, 1])),
        PhysicalKey::W => Some(("W"@, seq![11usize, 1, 2])),
        PhysicalKey::E => Some(("E"@, seq![11usize, 2])),
        PhysicalKey::R => Some(("R"@, seq![11usize, 2, 3])),
        PhysicalKey::T => Some(("T"@, seq![11usize, 3])),
        PhysicalKey::A => Some(("A"@, seq![1usize])),
        PhysicalKey::S => Some(("S"@, seq![1usize, 2])),
        PhysicalKey::D => Some(("D"@, seq![2usize])),
        PhysicalKey::F => Some(("F"@, seq![2usize, 3])),
        PhysicalKey::G => Some(("G"@, seq![3usize])),
        PhysicalKey::H => Some(("H"@, seq![7usize])),
        PhysicalKey::J => Some(("J"@, seq![7usize, 8])),
        PhysicalKey::K => Some(("K"@, seq![8usize])),
        PhysicalKey::L => Some(("L"@, seq![8usize, 9])),
        PhysicalKey::Z => Some(("Z"@, seq![0usize, 1])),
        PhysicalKey::X => Some(("X"@, seq![0usize, 1, 2])),
        PhysicalKey::C => Some(("C"@, seq![0usize, 2])),
        PhysicalKey::V => Some(("V"@, seq![0usize, 2, 3])),
        PhysicalKey::B => Some(("B"@, seq![0usize, 3])),
        _ => None,
    }
}

/// The order in which a frame visits the mapped keys.
pub open spec fn table_order() -> Seq<PhysicalKey> {
    seq![
        PhysicalKey::Space, PhysicalKey::Enter, PhysicalKey::Backspace, PhysicalKey::Tab,
        PhysicalKey::Escape, PhysicalKey::Num1, PhysicalKey::Num2, PhysicalKey::Num3,
        PhysicalKey::Num4, PhysicalKey::Num5, PhysicalKey::Num6, PhysicalKey::Num7,
        PhysicalKey::Num8, PhysicalKey::Num9, PhysicalKey::Num0, PhysicalKey::Q,
        PhysicalKey::W, PhysicalKey::E, PhysicalKey::R, PhysicalKey::T, PhysicalKey::A,
        PhysicalKey::S, PhysicalKey::D, PhysicalKey::F, PhysicalKey::G, PhysicalKey::H,
        PhysicalKey::J, PhysicalKey::K, PhysicalKey::L, PhysicalKey::Z, PhysicalKey::X,
        PhysicalKey::C, PhysicalKey::V, PhysicalKey::B,
    ]
}

/// Every lamp index of the table names one of the lamps.
pub proof fn lemma_binding_in_range(k: PhysicalKey)
    ensures
        binding(k) matches Some((_, ixs)) ==> forall|j: int|
            0 <= j < ixs.len() ==> #[trigger] ixs[j] < MAX_KEYS,
{
}

/// The mapped keys, in the order in which a frame visits them.
pub fn table_keys() -> (r: Vec<PhysicalKey>)
    ensures
        r@ == table_order(),
{
    let r = vec![
        PhysicalKey::Space, PhysicalKey::Enter, PhysicalKey::Backspace, PhysicalKey::Tab,
        PhysicalKey::Escape, PhysicalKey::Num1, PhysicalKey::Num2, PhysicalKey::Num3,
        PhysicalKey::Num4, PhysicalKey::Num5, PhysicalKey::Num6, PhysicalKey::Num7,
        PhysicalKey::Num8, PhysicalKey::Num9, PhysicalKey::Num0, PhysicalKey::Q,
        PhysicalKey::W, PhysicalKey::E, PhysicalKey::R, PhysicalKey::T, PhysicalKey::A,
        PhysicalKey::S, PhysicalKey::D, PhysicalKey::F, PhysicalKey::G, PhysicalKey::H,
        PhysicalKey::J, PhysicalKey::K, PhysicalKey::L, PhysicalKey::Z, PhysicalKey::X,
        PhysicalKey::C, PhysicalKey::V, PhysicalKey::B
    ];
    assert(r@ =~= table_order());
    r
}

/// Looks a key up in the mapping table.
pub fn lookup(k: PhysicalKey) -> (r: Option<(String, Vec<usize>)>)
    ensures
        r is None <==> binding(k) is None,
        r matches Some((l, ixs)) ==> binding(k) == Some((l@, ixs@)),
{
    let (l, ixs): (&str, Vec<usize>) = match k {
        PhysicalKey::Space => ("SPC", vec![7]),
        PhysicalKey::Enter => ("RET", vec![6]),
        PhysicalKey::Backspace => ("BSPC", vec![4]),
        PhysicalKey::Tab => ("TAB", vec![5]),
        PhysicalKey::Escape => ("ESC", vec![5, 6]),
        PhysicalKey::Num1 => ("1", vec![0, 1, 11]),
        PhysicalKey::Num2 => ("2", vec![0, 1, 2, 11]),
        PhysicalKey::Num3 => ("3", vec![0, 2, 11]),
        PhysicalKey::Num4 => ("4", vec![0, 2, 3, 11]),
        PhysicalKey::Num5 => ("5", vec![0, 3, 11]),
        PhysicalKey::Num6 => ("6", vec![0, 7, 11]),
        PhysicalKey::Num7 => ("7", vec![0, 7, 8, 11]),
        PhysicalKey::Num8 => ("8", vec![0, 8, 11]),
        PhysicalKey::Num9 => ("9", vec![0, 8, 9, 11]),
        PhysicalKey::Num0 => ("0", vec![0, 9, 11]),
        PhysicalKey::Q => ("Q", vec![11, 1]),
        PhysicalKey::W => ("W", vec![11, 1, 2]),
        PhysicalKey::E => ("E", vec![11, 2]),
        PhysicalKey::R => ("R", vec![11, 2, 3]),
        PhysicalKey::T => ("T", vec![11, 3]),
        PhysicalKey::A => ("A", vec![1]),
        PhysicalKey::S => ("S", vec![1, 2]),
        PhysicalKey::D => ("D", vec![2]),
        PhysicalKey::F => ("F", vec![2, 3]),
        PhysicalKey::G => ("G", vec![3]),
        PhysicalKey::H => ("H", vec![7]),
        PhysicalKey::J => ("J", vec![7, 8]),
        PhysicalKey::K => ("K", vec![8]),
        PhysicalKey::L => ("L", vec![8, 9]),
        PhysicalKey::Z => ("Z", vec![0, 1]),
        PhysicalKey::X => ("X", vec![0, 1, 2]),
        PhysicalKey::C => ("C", vec![0, 2]),
        PhysicalKey::V => ("V", vec![0, 2, 3]),
        PhysicalKey::B => ("B", vec![0, 3]),
        _ => {
            return None;
        },
    };
    Some((l.to_owned(), ixs))
}

} // verus!
