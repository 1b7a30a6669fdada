//! Colours of stellar surfaces by temperature.
//!
//! A colour table pairs strictly increasing temperatures (in kelvin) with the
//! colour of a black body at that temperature. A temperature takes the colour
//! of the nearest temperature of the table; of two equally near, the hotter.
use vstd::prelude::*;

verus! {

/// An 8-bit colour.
#[derive(Clone, Copy, Debug, PartialEq, Eq, Structural)]
pub struct Rgb {
    pub red: u8,
    pub green: u8,
    pub blue: u8,
}

/// Each key is below every later one.
pub open spec fn strictly_increasing(keys: Seq<u16>) -> bool {
    forall|i: int, j: int| 0 <= i < j < keys.len() ==> #[trigger] keys[i] < #[trigger] keys[j]
}

/// Distance between two temperatures.
pub open spec fn distance(a: u16, b: u16) -> int {
    if a <= b {
        b - a
    } else {
        a - b
    }
}

/// `i` is the index of the key nearest `t`; of two equally near, the greater.
pub open spec fn is_nearest(keys: Seq<u16>, t: u16, i: int) -> bool {
    &&& 0 <= i < keys.len()
    &&& forall|j: int| 0 <= j < keys.len() ==> distance(keys[i], t) <= distance(#[trigger] keys[j], t)
    &&& forall|j: int|
        0 <= j < keys.len() && distance(#[trigger] keys[j], t) == distance(keys[i], t) ==> keys[j]
            <= keys[i]
}

/// Among strictly increasing keys, one index at most is the nearest to a temperature.
pub proof fn nearest_is_unique(keys: Seq<u16>, t: u16, i: int, k: int)
    requires
        strictly_increasing(keys),
        is_nearest(keys, t, i),
        is_nearest(keys, t, k),
    ensures
        i == k,
{
    assert(distance(keys[i], t) <= distance(keys[k], t));
    assert(distance(keys[k], t) <= distance(keys[i], t));
    assert(keys[k] <= keys[i]);
    assert(keys[i] <= keys[k]);
    if i < k {
        assert(keys[i] < keys[k]);
    } else if k < i {
        assert(keys[k] < keys[i]);
    }
}

/// Temperatures with their colours.
pub struct ColorTable {
    temperatures: Vec<u16>,
    colors: Vec<Rgb>,
}

impl ColorTable {
    /// The temperatures of the table, in order.
    pub closed spec fn temperatures(&self) -> Seq<u16> {
        self.temperatures@
    }

    /// The colours of the table, one for each temperature.
    pub closed spec fn colors(&self) -> Seq<Rgb> {
        self.colors@
    }

    /// The table is not empty, has one colour per temperature, and its
    /// temperatures strictly increase.
    pub open spec fn wf(&self) -> bool {
        &&& self.temperatures().len() > 0
        &&& self.colors().len() == self.temperatures().len()
        &&& strictly_increasing(self.temperatures())
    }

    /// A table of one temperature.
    pub fn single(temperature: u16, color: Rgb) -> (table: ColorTable)
        ensures
            table.wf(),
            table.temperatures() == seq![temperature],
            table.colors() == seq![color],
    {
        let mut temperatures: Vec<u16> = Vec::new();
        temperatures.push(temperature);
        let mut colors: Vec<Rgb> = Vec::new();
        colors.push(color);
        assert(temperatures@ =~= seq![temperature]);
        assert(colors@ =~= seq![color]);
        ColorTable { temperatures, colors }
    }

    /// Appends a temperature hotter than all the table holds, with its colour.
    pub fn push(&mut self, temperature: u16, color: Rgb)
        requires
            old(self).wf(),
            old(self).temperatures().last() < temperature,
        ensures
            final(self).wf(),
            final(self).temperatures() == old(self).temperatures().push(temperature),
            final(self).colors() == old(self).colors().push(color),
            final(self).temperatures()[0] == old(self).temperatures()[0],
    {
        let ghost before = self.temperatures@;
        self.temperatures.push(temperature);
        self.colors.push(color);
        assert forall|i: int, j: int|
            0 <= i < j < self.temperatures@.len() implies #[trigger] self.temperatures@[i]
            < #[trigger] self.temperatures@[j] by {
            if j == before.len() && i < before.len() - 1 {
                assert(before[i] < before[before.len() - 1]);
            }
        }
    }

    /// Number of temperatures in the table.
    pub fn len(&self) -> (n: usize)
        ensures
            n == self.temperatures().len(),
    {
        self.temperatures.len()
    }

    /// Index of the temperature of the table nearest `temperature`; of two
    /// equally near, the hotter.
    pub fn nearest(&self, temperature: u16) -> (i: usize)
        requires
            self.wf(),
        ensures
            is_nearest(self.temperatures(), temperature, i as int),
    {
        let keys = &self.temperatures;
        let mut lo: usize = 0;
        let mut hi: usize = keys.len();
        while lo < hi
            invariant
                keys@ == self.temperatures(),
                strictly_increasing(keys@),
                0 <= lo <= hi <= keys@.len(),
                forall|j: int| 0 <= j < lo ==> #[trigger] keys@[j] < temperature,
                forall|j: int| hi <= j < keys@.len() ==> temperature <= #[trigger] keys@[j],
            decreases hi - lo,
        {
            let mid = lo + (hi - lo) / 2;
            if keys[mid] < temperature {
                assert forall|j: int| 0 <= j <= mid implies #[trigger] keys@[j] < temperature by {
                    if j < mid {
                        assert(keys@[j] < keys@[mid as int]);
                    }
                }
                lo = mid + 1;
            } else {
                assert forall|j: int| mid <= j < keys@.len() implies temperature
                    <= #[trigger] keys@[j] by {
                    if mid < j {
                        assert(keys@[mid as int] < keys@[j]);
                    }
                }
                hi = mid;
            }
        }
        let n = keys.len();
        if lo == 0 {
            0
        } else if lo == n {
            assert forall|j: int| 0 <= j < n implies #[trigger] keys@[j] <= keys@[n - 1] by {
                if j < n - 1 {
                    assert(keys@[j] < keys@[n - 1]);
                }
            }
            n - 1
        } else {
            let below = keys[lo - 1];
            let above = keys[lo];
            assert forall|j: int| 0 <= j < n implies #[trigger] keys@[j] <= below || above
                <= keys@[j] by {
                if j < lo - 1 {
                    assert(keys@[j] < keys@[lo - 1]);
                } else if lo < j {
                    assert(keys@[lo as int] < keys@[j]);
                }
            }
            if above - temperature <= temperature - below {
                lo
            } else {
                lo - 1
            }
        }
    }

    /// Colour of the temperature of the table nearest `temperature`; of two
    /// equally near, the hotter.
    pub fn color_of(&self, temperature: u16) -> (c: Rgb)
        requires
            self.wf(),
        ensures
            exists|i: int|
                is_nearest(self.temperatures(), temperature, i) && c == #[trigger] self.colors()[i],
    {
        let i = self.nearest(temperature);
        self.colors[i]
    }

    /// Colours of black bodies from 1990 K to 50000 K.
    pub fn blackbody() -> (table: ColorTable)
        ensures
            table.wf(),
            table.temperatures().len() == 130,
            table.temperatures()[0] == 1990,
            table.temperatures().last() == 50000,
    {
    let mut table = ColorTable::single(1990, Rgb { red: 255, green: 233, blue: 154 });
    table.push(2000, Rgb { red: 255, green: 198, blue: 108 });
    table.push(2167, Rgb { red: 255, green: 198, blue: 109 });
    table.push(2180, Rgb { red: 255, green: 167, blue: 97 });
    table.push(2333, Rgb { red: 255, green: 197, blue: 111 });
    table.push(2370, Rgb { red: 255, green: 165, blue: 97 });
    table.push(2500, Rgb { red: 255, green: 195, blue: 112 });
    table.push(2560, Rgb { red: 255, green: 178, blue: 121 });
    table.push(2667, Rgb { red: 255, green: 204, blue: 111 });
    table.push(2750, Rgb { red: 255, green: 197, blue: 124 });
    table.push(2833, Rgb { red: 255, green: 201, blue: 127 });
    table.push(2940, Rgb { red: 255, green: 206, blue: 127 });
    table.push(3000, Rgb { red: 255, green: 206, blue: 129 });
    table.push(3130, Rgb { red: 255, green: 200, blue: 119 });
    table.push(3167, Rgb { red: 255, green: 196, blue: 131 });
    table.push(3320, Rgb { red: 255, green: 198, blue: 118 });
    table.push(3333, Rgb { red: 255, green: 204, blue: 142 });
    table.push(3500, Rgb { red: 255, green: 195, blue: 139 });
    table.push(3510, Rgb { red: 255, green: 200, blue: 121 });
    table.push(3640, Rgb { red: 255, green: 202, blue: 157 });
    table.push(3700, Rgb { red: 255, green: 203, blue: 132 });
    table.push(3717, Rgb { red: 255, green: 206, blue: 140 });
    table.push(3725, Rgb { red: 255, green: 205, blue: 135 });
    table.push(3733, Rgb { red: 255, green: 208, blue: 142 });
    table.push(3750, Rgb { red: 255, green: 206, blue: 139 });
    table.push(3780, Rgb { red: 255, green: 209, blue: 174 });
    table.push(3800, Rgb { red: 255, green: 211, blue: 146 });
    table.push(3900, Rgb { red: 255, green: 216, blue: 167 });
    table.push(3920, Rgb { red: 255, green: 199, blue: 142 });
    table.push(4000, Rgb { red: 255, green: 221, blue: 175 });
    table.push(4057, Rgb { red: 255, green: 223, blue: 181 });
    table.push(4060, Rgb { red: 255, green: 205, blue: 152 });
    table.push(4114, Rgb { red: 255, green: 227, blue: 190 });
    table.push(4171, Rgb { red: 255, green: 231, blue: 196 });
    table.push(4200, Rgb { red: 255, green: 210, blue: 161 });
    table.push(4229, Rgb { red: 255, green: 231, blue: 199 });
    table.push(4286, Rgb { red: 255, green: 234, blue: 207 });
    table.push(4340, Rgb { red: 255, green: 216, blue: 181 });
    table.push(4343, Rgb { red: 255, green: 236, blue: 215 });
    table.push(4400, Rgb { red: 255, green: 236, blue: 211 });
    table.push(4480, Rgb { red: 255, green: 222, blue: 195 });
    table.push(4620, Rgb { red: 255, green: 227, blue: 196 });
    table.push(4669, Rgb { red: 255, green: 243, blue: 233 });
    table.push(4760, Rgb { red: 255, green: 224, blue: 188 });
    table.push(4900, Rgb { red: 255, green: 238, blue: 221 });
    table.push(4937, Rgb { red: 255, green: 243, blue: 233 });
    table.push(5010, Rgb { red: 255, green: 239, blue: 221 });
    table.push(5120, Rgb { red: 255, green: 237, blue: 222 });
    table.push(5206, Rgb { red: 255, green: 243, blue: 233 });
    table.push(5230, Rgb { red: 255, green: 244, blue: 235 });
    table.push(5340, Rgb { red: 255, green: 244, blue: 235 });
    table.push(5450, Rgb { red: 255, green: 244, blue: 234 });
    table.push(5474, Rgb { red: 255, green: 243, blue: 233 });
    table.push(5560, Rgb { red: 255, green: 241, blue: 229 });
    table.push(5670, Rgb { red: 255, green: 243, blue: 236 });
    table.push(5743, Rgb { red: 255, green: 242, blue: 233 });
    table.push(5780, Rgb { red: 255, green: 245, blue: 242 });
    table.push(5890, Rgb { red: 255, green: 247, blue: 248 });
    table.push(6000, Rgb { red: 255, green: 248, blue: 252 });
    table.push(6011, Rgb { red: 255, green: 246, blue: 233 });
    table.push(6140, Rgb { red: 255, green: 247, blue: 252 });
    table.push(6280, Rgb { red: 255, green: 247, blue: 252 });
    table.push(6420, Rgb { red: 246, green: 243, blue: 255 });
    table.push(6520, Rgb { red: 255, green: 243, blue: 250 });
    table.push(6560, Rgb { red: 244, green: 241, blue: 255 });
    table.push(6700, Rgb { red: 248, green: 247, blue: 255 });
    table.push(6760, Rgb { red: 255, green: 234, blue: 252 });
    table.push(6840, Rgb { red: 224, green: 226, blue: 255 });
    table.push(6980, Rgb { red: 230, green: 233, blue: 255 });
    table.push(7000, Rgb { red: 219, green: 225, blue: 255 });
    table.push(7120, Rgb { red: 236, green: 239, blue: 255 });
    table.push(7193, Rgb { red: 227, green: 231, blue: 255 });
    table.push(7260, Rgb { red: 230, green: 234, blue: 255 });
    table.push(7387, Rgb { red: 236, green: 237, blue: 255 });
    table.push(7400, Rgb { red: 224, green: 229, blue: 255 });
    table.push(7580, Rgb { red: 244, green: 243, blue: 255 });
    table.push(7650, Rgb { red: 219, green: 224, blue: 255 });
    table.push(7773, Rgb { red: 223, green: 229, blue: 255 });
    table.push(7900, Rgb { red: 213, green: 222, blue: 255 });
    table.push(7967, Rgb { red: 202, green: 215, blue: 255 });
    table.push(8150, Rgb { red: 200, green: 213, blue: 255 });
    table.push(8160, Rgb { red: 206, green: 218, blue: 255 });
    table.push(8353, Rgb { red: 210, green: 221, blue: 255 });
    table.push(8400, Rgb { red: 199, green: 212, blue: 255 });
    table.push(8547, Rgb { red: 215, green: 223, blue: 255 });
    table.push(8650, Rgb { red: 202, green: 215, blue: 255 });
    table.push(8740, Rgb { red: 219, green: 226, blue: 255 });
    table.push(8900, Rgb { red: 197, green: 211, blue: 255 });
    table.push(8933, Rgb { red: 223, green: 229, blue: 255 });
    table.push(9127, Rgb { red: 215, green: 224, blue: 255 });
    table.push(9150, Rgb { red: 191, green: 207, blue: 255 });
    table.push(9320, Rgb { red: 207, green: 219, blue: 255 });
    table.push(9400, Rgb { red: 187, green: 203, blue: 255 });
    table.push(9513, Rgb { red: 199, green: 214, blue: 255 });
    table.push(9650, Rgb { red: 181, green: 199, blue: 255 });
    table.push(9707, Rgb { red: 214, green: 223, blue: 255 });
    table.push(9900, Rgb { red: 185, green: 201, blue: 255 });
    table.push(11710, Rgb { red: 181, green: 198, blue: 255 });
    table.push(13520, Rgb { red: 177, green: 195, blue: 255 });
    table.push(15330, Rgb { red: 173, green: 191, blue: 255 });
    table.push(17140, Rgb { red: 172, green: 189, blue: 255 });
    table.push(18950, Rgb { red: 170, green: 191, blue: 255 });
    table.push(20160, Rgb { red: 187, green: 203, blue: 255 });
    table.push(20760, Rgb { red: 164, green: 184, blue: 255 });
    table.push(21370, Rgb { red: 175, green: 194, blue: 255 });
    table.push(22570, Rgb { red: 165, green: 185, blue: 255 });
    table.push(22580, Rgb { red: 177, green: 196, blue: 255 });
    table.push(23790, Rgb { red: 168, green: 193, blue: 255 });
    table.push(24380, Rgb { red: 160, green: 180, blue: 255 });
    table.push(25000, Rgb { red: 161, green: 189, blue: 255 });
    table.push(26190, Rgb { red: 160, green: 182, blue: 255 });
    table.push(27600, Rgb { red: 164, green: 185, blue: 255 });
    table.push(28000, Rgb { red: 156, green: 178, blue: 255 });
    table.push(30200, Rgb { red: 154, green: 178, blue: 255 });
    table.push(32400, Rgb { red: 157, green: 177, blue: 255 });
    table.push(32800, Rgb { red: 160, green: 181, blue: 255 });
    table.push(34600, Rgb { red: 157, green: 177, blue: 255 });
    table.push(35400, Rgb { red: 157, green: 178, blue: 255 });
    table.push(36800, Rgb { red: 162, green: 184, blue: 255 });
    table.push(38000, Rgb { red: 155, green: 176, blue: 255 });
    table.push(39000, Rgb { red: 155, green: 176, blue: 255 });
    table.push(40400, Rgb { red: 153, green: 174, blue: 255 });
    table.push(41200, Rgb { red: 153, green: 174, blue: 255 });
    table.push(42800, Rgb { red: 151, green: 172, blue: 255 });
    table.push(43400, Rgb { red: 151, green: 172, blue: 255 });
    table.push(45200, Rgb { red: 148, green: 170, blue: 255 });
    table.push(45600, Rgb { red: 148, green: 170, blue: 255 });
    table.push(47600, Rgb { red: 146, green: 168, blue: 255 });
    table.push(47800, Rgb { red: 146, green: 168, blue: 255 });
    table.push(50000, Rgb { red: 144, green: 166, blue: 255 });
        table
    }
}

} // verus!
