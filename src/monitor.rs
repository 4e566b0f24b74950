use vstd::prelude::*;

verus! {

/// A display as enumeration reported it: its position in the enumeration,
/// the offset of its top-left corner in the virtual desktop, and its size in
/// pixels.
#[derive(Clone, Copy, Debug, PartialEq, Eq, Structural)]
pub struct MonitorDescriptor {
    pub index: usize,
    pub origin_x: i32,
    pub origin_y: i32,
    pub width: u32,
    pub height: u32,
}

/// The display that a request for `requested` lands on: the display at that
/// position, else the first one, else none when no display is attached.
pub open spec fn resolve_spec(monitors: Seq<MonitorDescriptor>, requested: usize) -> Option<MonitorDescriptor> {
    if requested < monitors.len() {
        Some(monitors[requested as int])
    } else if monitors.len() > 0 {
        Some(monitors[0])
    } else {
        None
    }
}

/// Picks the display for a request by position, falling back to the first
/// display when the position is out of range.
pub fn resolve(monitors: &Vec<MonitorDescriptor>, requested: usize) -> (r: Option<MonitorDescriptor>)
    ensures
        r == resolve_spec(monitors@, requested),
{
    if requested < monitors.len() {
        Some(monitors[requested])
    } else if monitors.len() > 0 {
        Some(monitors[0])
    } else {
        None
    }
}

/// Denominator of a normalized coordinate: a fraction of a display's side is
/// carried as a count of millionths.
pub const NORMALIZED_SCALE: u64 = 1_000_000;

/// The device coordinate on one axis: `origin + fraction * side`, with the
/// fraction `millionths / NORMALIZED_SCALE`, rounded down to a whole pixel.
pub open spec fn axis_target(origin: i32, side: u32, millionths: u32) -> int {
    origin + (millionths * side) / (NORMALIZED_SCALE as int)
}

/// The device position for a normalized point on a display.
pub open spec fn point_target(m: MonitorDescriptor, x: u32, y: u32) -> (int, int) {
    (axis_target(m.origin_x, m.width, x), axis_target(m.origin_y, m.height, y))
}

/// Maps one normalized coordinate onto a display's axis.
pub fn to_device_axis(origin: i32, side: u32, millionths: u32) -> (r: i64)
    ensures
        r == axis_target(origin, side, millionths),
{
    proof {
        assert((millionths as int) * (side as int) <= 0xffff_fffe_0000_0001) by (nonlinear_arith)
            requires
                millionths <= 0xffff_ffff,
                side <= 0xffff_ffff,
        ;
    }
    let scaled: u64 = (millionths as u64) * (side as u64);
    let offset: u64 = scaled / NORMALIZED_SCALE;
    origin as i64 + offset as i64
}

/// The device position of a normalized point, `x` and `y` in millionths of
/// the width and height of the display that `monitor_index` resolves to, or
/// none when no display is attached.
pub fn pointer_target(monitors: &Vec<MonitorDescriptor>, x: u32, y: u32, monitor_index: usize) -> (r: Option<(i64, i64)>)
    ensures
        r is Some <==> resolve_spec(monitors@, monitor_index) is Some,
        r matches Some(p) ==> (p.0 as int, p.1 as int) == point_target(resolve_spec(monitors@, monitor_index)->Some_0, x, y),
{
    match resolve(monitors, monitor_index) {
        Some(m) => Some((to_device_axis(m.origin_x, m.width, x), to_device_axis(m.origin_y, m.height, y))),
        None => None,
    }
}

} // verus!
