use vstd::prelude::*;

verus! {

/// One display of the virtual desktop, in logical pixels.
///
/// The scale factor (logical-to-physical pixel ratio) is held in thousandths:
/// a factor of 2.0 is `2000`, a factor of 1.25 is `1250`.
#[derive(Clone, Debug)]
pub struct ScreenInfo {
    pub id: String,
    pub name: String,
    pub x: i32,
    pub y: i32,
    pub width: u32,
    pub height: u32,
    pub scale_permille: u32,
}

/// The bounding box of all screens of the virtual desktop.
#[derive(Clone, Copy, Debug, PartialEq, Eq)]
pub struct TotalBounds {
    pub min_x: i32,
    pub min_y: i32,
    pub total_width: u64,
    pub total_height: u64,
}

/// A rectangle of the source image, in image pixels.
#[derive(Clone, Copy, Debug, PartialEq, Eq)]
pub struct CropRect {
    pub x: u32,
    pub y: u32,
    pub width: u32,
    pub height: u32,
}

pub open spec fn seq_min(v: Seq<int>) -> int
    decreases v.len(),
{
    if v.len() == 0 {
        0
    } else if v.len() == 1 {
        v[0]
    } else {
        let m = seq_min(v.drop_last());
        if v.last() < m {
            v.last()
        } else {
            m
        }
    }
}

pub open spec fn seq_max(v: Seq<int>) -> int
    decreases v.len(),
{
    if v.len() == 0 {
        0
    } else if v.len() == 1 {
        v[0]
    } else {
        let m = seq_max(v.drop_last());
        if v.last() > m {
            v.last()
        } else {
            m
        }
    }
}

/// Left edges of the screens.
pub open spec fn lefts(s: Seq<ScreenInfo>) -> Seq<int> {
    s.map_values(|c: ScreenInfo| c.x as int)
}

/// Top edges of the screens.
pub open spec fn tops(s: Seq<ScreenInfo>) -> Seq<int> {
    s.map_values(|c: ScreenInfo| c.y as int)
}

/// Right edges (`x + width`) of the screens.
pub open spec fn rights(s: Seq<ScreenInfo>) -> Seq<int> {
    s.map_values(|c: ScreenInfo| c.x + c.width)
}

/// Bottom edges (`y + height`) of the screens.
pub open spec fn bottoms(s: Seq<ScreenInfo>) -> Seq<int> {
    s.map_values(|c: ScreenInfo| c.y + c.height)
}

/// The bounding box of a non-empty screen set.
pub open spec fn bounds_of(s: Seq<ScreenInfo>) -> TotalBounds {
    TotalBounds {
        min_x: seq_min(lefts(s)) as i32,
        min_y: seq_min(tops(s)) as i32,
        total_width: (seq_max(rights(s)) - seq_min(lefts(s))) as u64,
        total_height: (seq_max(bottoms(s)) - seq_min(tops(s))) as u64,
    }
}

proof fn lemma_prefix_step(v: Seq<int>, i: int)
    requires
        0 <= i < v.len(),
    ensures
        v.subrange(0, i + 1).drop_last() == v.subrange(0, i),
        v.subrange(0, i + 1).last() == v[i],
        v.subrange(0, i + 1).len() == i + 1,
{
    assert(v.subrange(0, i + 1).drop_last() =~= v.subrange(0, i));
}

proof fn lemma_min_max_bounds(v: Seq<int>)
    requires
        v.len() > 0,
    ensures
        forall|i: int| 0 <= i < v.len() ==> seq_min(v) <= #[trigger] v[i] <= seq_max(v),
    decreases v.len(),
{
    if v.len() > 1 {
        lemma_min_max_bounds(v.drop_last());
        let w = v.drop_last();
        assert forall|i: int| 0 <= i < v.len() implies seq_min(v) <= #[trigger] v[i] <= seq_max(v) by {
            if i < v.len() - 1 {
                assert(v[i] == w[i]);
            }
        }
    }
}

/// Computes the bounding box of the virtual desktop: the smallest left and top
/// edges, and the span from there to the largest right and bottom edges.
pub fn compute_bounds(screens: &Vec<ScreenInfo>) -> (r: TotalBounds)
    requires
        screens@.len() > 0,
    ensures
        r == bounds_of(screens@),
        r.min_x as int == seq_min(lefts(screens@)),
        r.min_y as int == seq_min(tops(screens@)),
        r.total_width as int == seq_max(rights(screens@)) - seq_min(lefts(screens@)),
        r.total_height as int == seq_max(bottoms(screens@)) - seq_min(tops(screens@)),
        forall|i: int|
            0 <= i < screens@.len() ==> {
                &&& r.min_x <= (#[trigger] screens@[i]).x
                &&& screens@[i].x + screens@[i].width <= r.min_x + r.total_width
                &&& r.min_y <= screens@[i].y
                &&& screens@[i].y + screens@[i].height <= r.min_y + r.total_height
            },
{
    let ghost s = screens@;
    let mut min_x: i64 = screens[0].x as i64;
    let mut min_y: i64 = screens[0].y as i64;
    let mut max_x: i64 = screens[0].x as i64 + screens[0].width as i64;
    let mut max_y: i64 = screens[0].y as i64 + screens[0].height as i64;
    proof {
        assert(lefts(s).subrange(0, 1) =~= seq![s[0].x as int]);
        assert(tops(s).subrange(0, 1) =~= seq![s[0].y as int]);
        assert(rights(s).subrange(0, 1) =~= seq![s[0].x + s[0].width]);
        assert(bottoms(s).subrange(0, 1) =~= seq![s[0].y + s[0].height]);
    }
    let mut i: usize = 1;
    while i < screens.len()
        invariant
            s == screens@,
            1 <= i <= s.len(),
            min_x == seq_min(lefts(s).subrange(0, i as int)),
            min_y == seq_min(tops(s).subrange(0, i as int)),
            max_x == seq_max(rights(s).subrange(0, i as int)),
            max_y == seq_max(bottoms(s).subrange(0, i as int)),
            i32::MIN <= min_x <= max_x <= i32::MAX + u32::MAX,
            i32::MIN <= min_y <= max_y <= i32::MAX + u32::MAX,
        decreases s.len() - i,
    {
        let sc = &screens[i];
        proof {
            lemma_prefix_step(lefts(s), i as int);
            lemma_prefix_step(tops(s), i as int);
            lemma_prefix_step(rights(s), i as int);
            lemma_prefix_step(bottoms(s), i as int);
        }
        let l = sc.x as i64;
        let t = sc.y as i64;
        let rr = sc.x as i64 + sc.width as i64;
        let b = sc.y as i64 + sc.height as i64;
        if l < min_x {
            min_x = l;
        }
        if t < min_y {
            min_y = t;
        }
        if rr > max_x {
            max_x = rr;
        }
        if b > max_y {
            max_y = b;
        }
        i = i + 1;
    }
    proof {
        assert(lefts(s).subrange(0, s.len() as int) =~= lefts(s));
        assert(tops(s).subrange(0, s.len() as int) =~= tops(s));
        assert(rights(s).subrange(0, s.len() as int) =~= rights(s));
        assert(bottoms(s).subrange(0, s.len() as int) =~= bottoms(s));
        lemma_min_max_bounds(lefts(s));
        lemma_min_max_bounds(tops(s));
        lemma_min_max_bounds(rights(s));
        lemma_min_max_bounds(bottoms(s));
        assert forall|i: int| 0 <= i < s.len() implies {
            &&& min_x <= (#[trigger] s[i]).x
            &&& s[i].x + s[i].width <= max_x
            &&& min_y <= s[i].y
            &&& s[i].y + s[i].height <= max_y
        } by {
            assert(lefts(s)[i] == s[i].x);
            assert(rights(s)[i] == s[i].x + s[i].width);
            assert(tops(s)[i] == s[i].y);
            assert(bottoms(s)[i] == s[i].y + s[i].height);
        }
    }
    TotalBounds {
        min_x: min_x as i32,
        min_y: min_y as i32,
        total_width: (max_x - min_x) as u64,
        total_height: (max_y - min_y) as u64,
    }
}

} // verus!
