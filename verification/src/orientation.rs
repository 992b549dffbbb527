//! The four orientations and the static table attached to them.

use crate::backend::Backend;
use crate::text::same_text;
use vstd::prelude::*;

verus! {

/// A discrete physical rotation state of the device.
///
/// The declaration order is the order in which the classifier tries the
/// orientations; see [`Orientation::rank`].
#[derive(Clone, Copy, Debug, PartialEq, Eq, Structural)]
pub enum Orientation {
    Normal,
    Inverted,
    RotatedLeft,
    RotatedRight,
}

/// The orientations in classification order.
pub open spec fn ordered() -> Seq<Orientation> {
    seq![
        Orientation::Normal,
        Orientation::Inverted,
        Orientation::RotatedLeft,
        Orientation::RotatedRight,
    ]
}

/// The orientation that a compositor transform label names, if it names one
/// of the four.
pub open spec fn with_transform(label: Seq<char>) -> Option<Orientation> {
    if label == "normal"@ {
        Some(Orientation::Normal)
    } else if label == "180"@ {
        Some(Orientation::Inverted)
    } else if label == "90"@ {
        Some(Orientation::RotatedLeft)
    } else if label == "270"@ {
        Some(Orientation::RotatedRight)
    } else {
        None
    }
}

/// The orientation that an X11 rotation word names, if it names one.
pub open spec fn with_x11_word(word: Seq<char>) -> Option<Orientation> {
    if word == "normal"@ {
        Some(Orientation::Normal)
    } else if word == "inverted"@ {
        Some(Orientation::Inverted)
    } else if word == "left"@ {
        Some(Orientation::RotatedLeft)
    } else if word == "right"@ {
        Some(Orientation::RotatedRight)
    } else {
        None
    }
}

/// The orientation that a rotation label names in the vocabulary of a
/// backend.
pub open spec fn with_label(backend: Backend, label: Seq<char>) -> Option<Orientation> {
    match backend {
        Backend::Sway => with_transform(label),
        Backend::Xorg => with_x11_word(label),
    }
}

impl Orientation {
    /// Position of the orientation in classification order.
    pub open spec fn rank(self) -> int {
        match self {
            Orientation::Normal => 0,
            Orientation::Inverted => 1,
            Orientation::RotatedLeft => 2,
            Orientation::RotatedRight => 3,
        }
    }

    /// Reference unit vector: the gravity direction, in sensor axes, at which
    /// the device rests in this orientation.
    pub open spec fn reference(self) -> (int, int) {
        match self {
            Orientation::Normal => (0, -1),
            Orientation::Inverted => (0, 1),
            Orientation::RotatedLeft => (-1, 0),
            Orientation::RotatedRight => (1, 0),
        }
    }

    /// Transform label understood by the compositor backend.
    pub open spec fn transform(self) -> Seq<char> {
        match self {
            Orientation::Normal => "normal"@,
            Orientation::Inverted => "180"@,
            Orientation::RotatedLeft => "90"@,
            Orientation::RotatedRight => "270"@,
        }
    }

    /// Rotation word understood by the X11 backend.
    pub open spec fn x11_word(self) -> Seq<char> {
        match self {
            Orientation::Normal => "normal"@,
            Orientation::Inverted => "inverted"@,
            Orientation::RotatedLeft => "left"@,
            Orientation::RotatedRight => "right"@,
        }
    }

    /// Row-major 3x3 coordinate transformation for the touchscreen.
    pub open spec fn touch_matrix(self) -> Seq<int> {
        match self {
            Orientation::Normal => seq![1, 0, 0, 0, 1, 0, 0, 0, 1],
            Orientation::Inverted => seq![-1, 0, 1, 0, -1, 1, 0, 0, 1],
            Orientation::RotatedLeft => seq![0, 1, 0, -1, 0, 1, 0, 0, 1],
            Orientation::RotatedRight => seq![0, -1, 1, 1, 0, 0, 0, 0, 1],
        }
    }

    /// All four orientations, in classification order.
    pub fn all() -> (table: [Orientation; 4])
        ensures
            table@ == ordered(),
    {
        let table = [
            Orientation::Normal,
            Orientation::Inverted,
            Orientation::RotatedLeft,
            Orientation::RotatedRight,
        ];
        assert(table@ =~= ordered());
        table
    }

    /// Position of the orientation in classification order.
    pub fn index(self) -> (i: usize)
        ensures
            i == self.rank(),
            i < 4,
            ordered()[i as int] == self,
    {
        match self {
            Orientation::Normal => 0,
            Orientation::Inverted => 1,
            Orientation::RotatedLeft => 2,
            Orientation::RotatedRight => 3,
        }
    }

    /// Reference unit vector of the orientation.
    pub fn reference_vector(self) -> (v: (i8, i8))
        ensures
            (v.0 as int, v.1 as int) == self.reference(),
    {
        match self {
            Orientation::Normal => (0, -1),
            Orientation::Inverted => (0, 1),
            Orientation::RotatedLeft => (-1, 0),
            Orientation::RotatedRight => (1, 0),
        }
    }

    /// Transform label for the compositor backend.
    pub fn transform_label(self) -> (label: &'static str)
        ensures
            label@ == self.transform(),
    {
        match self {
            Orientation::Normal => "normal",
            Orientation::Inverted => "180",
            Orientation::RotatedLeft => "90",
            Orientation::RotatedRight => "270",
        }
    }

    /// Rotation word for the X11 backend.
    pub fn x11_label(self) -> (label: &'static str)
        ensures
            label@ == self.x11_word(),
    {
        match self {
            Orientation::Normal => "normal",
            Orientation::Inverted => "inverted",
            Orientation::RotatedLeft => "left",
            Orientation::RotatedRight => "right",
        }
    }

    /// The label that names the orientation to a backend.
    pub open spec fn label(self, backend: Backend) -> Seq<char> {
        match backend {
            Backend::Sway => self.transform(),
            Backend::Xorg => self.x11_word(),
        }
    }

    /// Reads an orientation from a compositor transform label.
    pub fn from_transform_label(label: &str) -> (found: Option<Orientation>)
        ensures
            found == with_transform(label@),
    {
        if same_text(label, "normal") {
            Some(Orientation::Normal)
        } else if same_text(label, "180") {
            Some(Orientation::Inverted)
        } else if same_text(label, "90") {
            Some(Orientation::RotatedLeft)
        } else if same_text(label, "270") {
            Some(Orientation::RotatedRight)
        } else {
            None
        }
    }

    /// Reads an orientation from an X11 rotation word.
    pub fn from_x11_label(word: &str) -> (found: Option<Orientation>)
        ensures
            found == with_x11_word(word@),
    {
        if same_text(word, "normal") {
            Some(Orientation::Normal)
        } else if same_text(word, "inverted") {
            Some(Orientation::Inverted)
        } else if same_text(word, "left") {
            Some(Orientation::RotatedLeft)
        } else if same_text(word, "right") {
            Some(Orientation::RotatedRight)
        } else {
            None
        }
    }

    /// Reads an orientation from the rotation label that a backend reported.
    pub fn from_label(backend: Backend, label: &str) -> (found: Option<Orientation>)
        ensures
            found == with_label(backend, label@),
    {
        match backend {
            Backend::Sway => Orientation::from_transform_label(label),
            Backend::Xorg => Orientation::from_x11_label(label),
        }
    }

    /// Touchscreen coordinate transformation, row by row.
    pub fn matrix(self) -> (m: [i8; 9])
        ensures
            m@.len() == 9,
            forall|i: int| 0 <= i < 9 ==> m@[i] as int == self.touch_matrix()[i],
            forall|i: int| 0 <= i < 9 ==> -1 <= #[trigger] m@[i] <= 1,
    {
        let m: [i8; 9] = match self {
            Orientation::Normal => [1, 0, 0, 0, 1, 0, 0, 0, 1],
            Orientation::Inverted => [-1, 0, 1, 0, -1, 1, 0, 0, 1],
            Orientation::RotatedLeft => [0, 1, 0, -1, 0, 1, 0, 0, 1],
            Orientation::RotatedRight => [0, -1, 1, 1, 0, 0, 0, 0, 1],
        };
        m
    }
}

/// Every orientation is read back from its own label: the labels of a
/// backend name the four orientations one for one.
pub proof fn lemma_label_round_trip(backend: Backend, orientation: Orientation)
    ensures
        with_label(backend, orientation.label(backend)) == Some(orientation),
{
    reveal_strlit("normal");
    reveal_strlit("180");
    reveal_strlit("90");
    reveal_strlit("270");
    reveal_strlit("inverted");
    reveal_strlit("left");
    reveal_strlit("right");
    assert("normal"@.len() == 6);
    assert("180"@[0] == '1');
    assert("90"@[0] == '9');
    assert("270"@[0] == '2');
    assert("inverted"@.len() == 8);
    assert("left"@.len() == 4);
    assert("right"@.len() == 5);
}

} // verus!
