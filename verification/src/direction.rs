use vstd::prelude::*;

verus! {

/// One of the three principal axes of the block grid.
#[derive(Debug, Copy, Clone, PartialEq, Eq, Structural)]
pub enum Axis {
    X,
    Y,
    Z,
}

/// Which way along an axis a direction points.
#[derive(Debug, Copy, Clone, PartialEq, Eq, Structural)]
pub enum AxisDirection {
    Positive,
    Negative,
}

/// The six faces of a cube. `Top` is +y, `Front` is +z, `Right` is +x.
#[derive(Debug, Copy, Clone, PartialEq, Eq, Structural)]
pub enum Direction {
    Top,
    Bottom,
    Front,
    Back,
    Right,
    Left,
}

impl Direction {
    /// Index of this direction in six-entry per-face tables.
    pub open spec fn spec_index(self) -> int {
        match self {
            Direction::Top => 0,
            Direction::Bottom => 1,
            Direction::Front => 2,
            Direction::Back => 3,
            Direction::Right => 4,
            Direction::Left => 5,
        }
    }

    /// The unit offset of the neighboring cell in this direction.
    pub open spec fn spec_offset(self) -> (int, int, int) {
        match self {
            Direction::Top => (0, 1, 0),
            Direction::Bottom => (0, -1, 0),
            Direction::Front => (0, 0, 1),
            Direction::Back => (0, 0, -1),
            Direction::Right => (1, 0, 0),
            Direction::Left => (-1, 0, 0),
        }
    }

    pub open spec fn spec_opposite(self) -> Direction {
        match self {
            Direction::Top => Direction::Bottom,
            Direction::Bottom => Direction::Top,
            Direction::Front => Direction::Back,
            Direction::Back => Direction::Front,
            Direction::Right => Direction::Left,
            Direction::Left => Direction::Right,
        }
    }

    /// A quarter turn around the x axis, for the four directions that move.
    pub open spec fn spec_rotate_x(self) -> Direction {
        match self {
            Direction::Top => Direction::Back,
            Direction::Bottom => Direction::Front,
            Direction::Front => Direction::Bottom,
            Direction::Back => Direction::Top,
            _ => self,
        }
    }

    /// A quarter turn around the y axis, for the four directions that move.
    pub open spec fn spec_rotate_y(self) -> Direction {
        match self {
            Direction::Front => Direction::Right,
            Direction::Back => Direction::Left,
            Direction::Right => Direction::Back,
            Direction::Left => Direction::Front,
            _ => self,
        }
    }

    /// A quarter turn around the z axis, for the four directions that move.
    pub open spec fn spec_rotate_z(self) -> Direction {
        match self {
            Direction::Top => Direction::Right,
            Direction::Bottom => Direction::Left,
            Direction::Right => Direction::Bottom,
            Direction::Left => Direction::Top,
            _ => self,
        }
    }

    /// Quarter turn around `axis`; directions along the axis stay put.
    pub open spec fn spec_rotate_around(self, axis: Axis) -> Direction {
        match axis {
            Axis::X => self.spec_rotate_x(),
            Axis::Y => self.spec_rotate_y(),
            Axis::Z => self.spec_rotate_z(),
        }
    }

    pub fn index(self) -> (r: usize)
        ensures
            r == self.spec_index(),
    {
        match self {
            Direction::Top => 0,
            Direction::Bottom => 1,
            Direction::Front => 2,
            Direction::Back => 3,
            Direction::Right => 4,
            Direction::Left => 5,
        }
    }

    /// The corner indices (into an element's eight corner vertices) that make
    /// up the quad of a face pointing this way, in emission order.
    pub fn vertices(&self) -> (r: [usize; 4])
        ensures
            r@ == self.spec_vertices(),
    {
        match self {
            Direction::Right => [7, 6, 5, 4],
            Direction::Top => [1, 2, 5, 6],
            Direction::Left => [3, 2, 1, 0],
            Direction::Front => [3, 4, 5, 2],
            Direction::Bottom => [7, 4, 3, 0],
            Direction::Back => [1, 6, 7, 0],
        }
    }

    pub open spec fn spec_vertices(self) -> Seq<usize> {
        match self {
            Direction::Right => seq![7usize, 6, 5, 4],
            Direction::Top => seq![1usize, 2, 5, 6],
            Direction::Left => seq![3usize, 2, 1, 0],
            Direction::Front => seq![3usize, 4, 5, 2],
            Direction::Bottom => seq![7usize, 4, 3, 0],
            Direction::Back => seq![1usize, 6, 7, 0],
        }
    }

    pub fn get_axis(&self) -> (r: Axis)
        ensures
            r == self.spec_axis(),
    {
        match self {
            Direction::Top | Direction::Bottom => Axis::Y,
            Direction::Front | Direction::Back => Axis::Z,
            Direction::Right | Direction::Left => Axis::X,
        }
    }

    pub open spec fn spec_axis(self) -> Axis {
        match self {
            Direction::Top | Direction::Bottom => Axis::Y,
            Direction::Front | Direction::Back => Axis::Z,
            Direction::Right | Direction::Left => Axis::X,
        }
    }

    pub fn get_axis_dir(&self) -> (r: AxisDirection)
        ensures
            (r == AxisDirection::Positive) == (self == Direction::Top || self
                == Direction::Front || self == Direction::Right),
    {
        match self {
            Direction::Top | Direction::Front | Direction::Right => AxisDirection::Positive,
            Direction::Bottom | Direction::Back | Direction::Left => AxisDirection::Negative,
        }
    }

    /// The unit offset of the neighboring cell in this direction.
    pub fn offset(self) -> (r: (i32, i32, i32))
        ensures
            (r.0 as int, r.1 as int, r.2 as int) == self.spec_offset(),
    {
        match self {
            Direction::Top => (0, 1, 0),
            Direction::Bottom => (0, -1, 0),
            Direction::Front => (0, 0, 1),
            Direction::Back => (0, 0, -1),
            Direction::Right => (1, 0, 0),
            Direction::Left => (-1, 0, 0),
        }
    }

    pub fn opposite(self) -> (r: Direction)
        ensures
            r == self.spec_opposite(),
    {
        match self {
            Direction::Top => Direction::Bottom,
            Direction::Bottom => Direction::Top,
            Direction::Front => Direction::Back,
            Direction::Back => Direction::Front,
            Direction::Right => Direction::Left,
            Direction::Left => Direction::Right,
        }
    }

    pub fn rotate_around(self, axis: &Axis) -> (r: Direction)
        ensures
            r == self.spec_rotate_around(*axis),
    {
        match axis {
            Axis::X => match self {
                Direction::Right | Direction::Left => self,
                value => value.rotate_x(),
            },
            Axis::Y => match self {
                Direction::Top | Direction::Bottom => self,
                value => value.rotate_y(),
            },
            Axis::Z => match self {
                Direction::Front | Direction::Back => self,
                value => value.rotate_z(),
            },
        }
    }

    pub fn rotate_x(&self) -> (r: Direction)
        requires
            self.spec_axis() != Axis::X,
        ensures
            r == self.spec_rotate_x(),
    {
        match self {
            Direction::Top => Direction::Back,
            Direction::Bottom => Direction::Front,
            Direction::Front => Direction::Bottom,
            Direction::Back => Direction::Top,
            Direction::Right => Direction::Right,
            Direction::Left => Direction::Left,
        }
    }

    pub fn rotate_y(&self) -> (r: Direction)
        requires
            self.spec_axis() != Axis::Y,
        ensures
            r == self.spec_rotate_y(),
    {
        match self {
            Direction::Front => Direction::Right,
            Direction::Back => Direction::Left,
            Direction::Right => Direction::Back,
            Direction::Left => Direction::Front,
            Direction::Top => Direction::Top,
            Direction::Bottom => Direction::Bottom,
        }
    }

    pub fn rotate_z(&self) -> (r: Direction)
        requires
            self.spec_axis() != Axis::Z,
        ensures
            r == self.spec_rotate_z(),
    {
        match self {
            Direction::Top => Direction::Right,
            Direction::Bottom => Direction::Left,
            Direction::Right => Direction::Bottom,
            Direction::Left => Direction::Top,
            Direction::Front => Direction::Front,
            Direction::Back => Direction::Back,
        }
    }
}

} // verus!
