//! The data behind the plant charts: lines of points, and the collection
//! of lines drawn together.

use vstd::prelude::*;

use crate::color::{blue, RGBColor};
use crate::requests::{texts, GraphData, GraphModel};
use crate::sensors::{in_color_family, sensor_label, Sensortypes};

verus! {

/// A line that can be drawn: its name, the x and y values of its points,
/// and its color.
#[derive(Debug, PartialEq)]
pub struct PlantChart {
    pub name: String,
    pub x: Vec<i32>,
    pub y: Vec<i32>,
    pub color: RGBColor,
}

/// A line with its values as sequences.
pub struct ChartModel {
    pub name: Seq<char>,
    pub x: Seq<i32>,
    pub y: Seq<i32>,
    pub color: RGBColor,
}

impl View for PlantChart {
    type V = ChartModel;

    open spec fn view(&self) -> ChartModel {
        ChartModel { name: self.name@, x: self.x@, y: self.y@, color: self.color }
    }
}

impl Clone for PlantChart {
    fn clone(&self) -> (r: Self)
        ensures
            r@ == self@,
    {
        let r = PlantChart {
            name: self.name.clone(),
            x: self.x.clone(),
            y: self.y.clone(),
            color: self.color,
        };
        assert(r.x@ =~= self.x@);
        assert(r.y@ =~= self.y@);
        r
    }
}

impl Default for PlantChart {
    /// An empty blue line without a name.
    fn default() -> (r: Self)
        ensures
            r@.name == Seq::<char>::empty(),
            r@.x == Seq::<i32>::empty(),
            r@.y == Seq::<i32>::empty(),
            r@.color == RGBColor(0, 0, 255),
    {
        PlantChart { name: String::new(), x: Vec::new(), y: Vec::new(), color: blue() }
    }
}

/// The sequence 0, 1, ..., n - 1.
pub open spec fn counting(n: nat) -> Seq<i32> {
    Seq::new(n, |i: int| i as i32)
}

impl PlantChart {
    /// Creates a new line.
    pub fn new(name: String, x: Vec<i32>, y: Vec<i32>, color: RGBColor) -> (r: PlantChart)
        ensures
            r.name == name,
            r.x == x,
            r.y == y,
            r.color == color,
    {
        PlantChart { name, x, y, color }
    }

    /// A sample line named "Test": x all 0 at six points, y from 0 to 5,
    /// in blue.
    pub fn test() -> (r: PlantChart)
        ensures
            r.name@ == "Test"@,
            r.x@ == seq![0i32, 0, 0, 0, 0, 0],
            r.y@ == seq![0i32, 1, 2, 3, 4, 5],
            r.color == RGBColor(0, 0, 255),
    {
        let r = PlantChart {
            name: String::from_str("Test"),
            x: vec![0, 0, 0, 0, 0, 0],
            y: vec![0, 1, 2, 3, 4, 5],
            color: blue(),
        };
        assert(r.x@ =~= seq![0i32, 0, 0, 0, 0, 0]);
        assert(r.y@ =~= seq![0i32, 1, 2, 3, 4, 5]);
        r
    }

    /// The color of the line.
    pub fn get_color(&self) -> (c: RGBColor)
        ensures
            c == self.color,
    {
        self.color
    }
}

/// Number of points of a line: its x and y values are taken in pairs, as
/// far as both go.
pub open spec fn point_count(c: PlantChart) -> int {
    if c.x@.len() <= c.y@.len() {
        c.x@.len() as int
    } else {
        c.y@.len() as int
    }
}

/// `v` is the largest x value of the points of `charts`, or 0 where none
/// is larger than 0.
pub open spec fn is_largest_x(charts: Seq<PlantChart>, v: int) -> bool {
    &&& v >= 0
    &&& forall|k: int, i: int|
        0 <= k < charts.len() && 0 <= i < point_count(charts[k]) ==> #[trigger] charts[k].x@[i] <= v
    &&& (v == 0 || exists|k: int, i: int|
        0 <= k < charts.len() && 0 <= i < point_count(charts[k]) && #[trigger] charts[k].x@[i] == v)
}

/// `v` is the largest y value of the points of `charts`, or 0 where none
/// is larger than 0.
pub open spec fn is_largest_y(charts: Seq<PlantChart>, v: int) -> bool {
    &&& v >= 0
    &&& forall|k: int, i: int|
        0 <= k < charts.len() && 0 <= i < point_count(charts[k]) ==> #[trigger] charts[k].y@[i] <= v
    &&& (v == 0 || exists|k: int, i: int|
        0 <= k < charts.len() && 0 <= i < point_count(charts[k]) && #[trigger] charts[k].y@[i] == v)
}

/// A collection of lines drawn together, and the message of the page that
/// shows them.
#[derive(Debug, PartialEq)]
pub struct PlantCharts<M> {
    pub charts: Vec<PlantChart>,
    pub message: M,
}

impl<M: Clone> Clone for PlantCharts<M> {
    fn clone(&self) -> (r: Self)
        ensures
            chart_models(r.charts@) == chart_models(self.charts@),
            cloned::<M>(self.message, r.message),
    {
        let charts = self.charts.clone();
        assert(chart_models(charts@) =~= chart_models(self.charts@));
        PlantCharts { charts, message: self.message.clone() }
    }
}

/// The views of a list of lines.
pub open spec fn chart_models(v: Seq<PlantChart>) -> Seq<ChartModel> {
    v.map_values(|c: PlantChart| c@)
}

/// The views of a list of readings.
pub open spec fn graph_models(v: Seq<GraphData>) -> Seq<GraphModel> {
    v.map_values(|g: GraphData| g@)
}

/// The lines made from readings: for each reading, one line named after
/// `names[i]` and the sensor, with x from 0 upwards, y the values, and a
/// color of the sensor's family.
pub open spec fn charts_from(
    charts: Seq<ChartModel>,
    graph_data: Seq<GraphModel>,
    sensor: Sensortypes,
    names: Seq<Seq<char>>,
) -> bool {
    &&& charts.len() == graph_data.len()
    &&& forall|i: int|
        0 <= i < charts.len() ==> {
            &&& (#[trigger] charts[i]).name == names[i] + "-"@ + sensor_label(sensor)
            &&& charts[i].x == counting(graph_data[i].timestamps.len())
            &&& charts[i].y == graph_data[i].values
            &&& in_color_family(sensor, charts[i].color)
        }
}

/// The readings can be drawn: there is a name for each, and no reading has
/// more points than an `i32` counts.
pub open spec fn drawable(graph_data: Seq<GraphModel>, names: Seq<Seq<char>>) -> bool {
    &&& names.len() >= graph_data.len()
    &&& forall|i: int|
        0 <= i < graph_data.len() ==> (#[trigger] graph_data[i]).timestamps.len() <= i32::MAX
}

/// Whether readings can be drawn with these names (see `drawable`).
pub fn can_draw(graph_data: &Vec<GraphData>, names: &Vec<String>) -> (r: bool)
    ensures
        r == drawable(graph_models(graph_data@), texts(names@)),
{
    if names.len() < graph_data.len() {
        return false;
    }
    let mut i: usize = 0;
    while i < graph_data.len()
        invariant
            i <= graph_data.len(),
            forall|j: int| 0 <= j < i ==> (#[trigger] graph_models(graph_data@)[j]).timestamps.len() <= i32::MAX,
        decreases graph_data.len() - i,
    {
        if graph_data[i].timestamps.len() > 0x7fff_ffff {
            assert(graph_models(graph_data@)[i as int].timestamps.len() > i32::MAX);
            return false;
        }
        i = i + 1;
    }
    true
}

fn counting_vec(n: usize) -> (v: Vec<i32>)
    requires
        n <= i32::MAX,
    ensures
        v@ == counting(n as nat),
{
    let mut v: Vec<i32> = Vec::new();
    let mut i: usize = 0;
    while i < n
        invariant
            i <= n <= i32::MAX,
            v@ =~= counting(i as nat),
        decreases n - i,
    {
        v.push(i as i32);
        i = i + 1;
    }
    v
}

impl<M> PlantCharts<M> {
    /// Creates a new collection of lines.
    pub fn new(charts: Vec<PlantChart>, message: M) -> (r: PlantCharts<M>)
        ensures
            r.charts == charts,
            r.message == message,
    {
        PlantCharts { charts, message }
    }

    /// A sample collection holding the sample line.
    pub fn test(message: M) -> (r: PlantCharts<M>)
        ensures
            r.charts@.len() == 1,
            r.charts@[0].name@ == "Test"@,
            r.charts@[0].x@ == seq![0i32, 0, 0, 0, 0, 0],
            r.charts@[0].y@ == seq![0i32, 1, 2, 3, 4, 5],
            r.charts@[0].color == RGBColor(0, 0, 255),
            r.message == message,
    {
        let mut charts: Vec<PlantChart> = Vec::new();
        charts.push(PlantChart::test());
        PlantCharts { charts, message }
    }

    /// The largest x and y values of the points of all lines (0 where no
    /// value is larger).
    pub fn largest_x_y(&self) -> (r: (i32, i32))
        ensures
            is_largest_x(self.charts@, r.0 as int),
            is_largest_y(self.charts@, r.1 as int),
    {
        let mut x: i32 = 0;
        let mut y: i32 = 0;
        let mut k: usize = 0;
        while k < self.charts.len()
            invariant
                k <= self.charts.len(),
                is_largest_x(self.charts@.take(k as int), x as int),
                is_largest_y(self.charts@.take(k as int), y as int),
            decreases self.charts.len() - k,
        {
            let chart = &self.charts[k];
            let ghost before = self.charts@.take(k as int);
            let ghost after = self.charts@.take(k + 1);
            assert(after =~= before.push(*chart));
            let n = if chart.x.len() <= chart.y.len() { chart.x.len() } else { chart.y.len() };
            let mut i: usize = 0;
            while i < n
                invariant
                    k < self.charts.len(),
                    *chart == self.charts@[k as int],
                    n == point_count(*chart),
                    i <= n,
                    before == self.charts@.take(k as int),
                    after == before.push(*chart),
                    x >= 0,
                    y >= 0,
                    forall|kk: int, ii: int|
                        0 <= kk < before.len() && 0 <= ii < point_count(before[kk])
                            ==> #[trigger] before[kk].x@[ii] <= x,
                    forall|kk: int, ii: int|
                        0 <= kk < before.len() && 0 <= ii < point_count(before[kk])
                            ==> #[trigger] before[kk].y@[ii] <= y,
                    forall|ii: int| 0 <= ii < i ==> #[trigger] chart.x@[ii] <= x,
                    forall|ii: int| 0 <= ii < i ==> #[trigger] chart.y@[ii] <= y,
                    x == 0 || (exists|kk: int, ii: int|
                        0 <= kk < after.len() && 0 <= ii < point_count(after[kk])
                            && #[trigger] after[kk].x@[ii] == x),
                    y == 0 || (exists|kk: int, ii: int|
                        0 <= kk < after.len() && 0 <= ii < point_count(after[kk])
                            && #[trigger] after[kk].y@[ii] == y),
                decreases n - i,
            {
                let a = chart.x[i];
                let b = chart.y[i];
                if a > x {
                    x = a;
                    assert(after[k as int].x@[i as int] == x);
                }
                if b > y {
                    y = b;
                    assert(after[k as int].y@[i as int] == y);
                }
                i = i + 1;
            }
            proof {
                assert forall|kk: int, ii: int|
                    0 <= kk < after.len() && 0 <= ii < point_count(after[kk]) implies
                    #[trigger] after[kk].x@[ii] <= x by {
                    if kk < before.len() {
                        assert(after[kk] == before[kk]);
                        assert(before[kk].x@[ii] <= x);
                    } else {
                        assert(after[kk] == *chart);
                        assert(chart.x@[ii] <= x);
                    }
                }
                assert forall|kk: int, ii: int|
                    0 <= kk < after.len() && 0 <= ii < point_count(after[kk]) implies
                    #[trigger] after[kk].y@[ii] <= y by {
                    if kk < before.len() {
                        assert(after[kk] == before[kk]);
                        assert(before[kk].y@[ii] <= y);
                    } else {
                        assert(after[kk] == *chart);
                        assert(chart.y@[ii] <= y);
                    }
                }
            }
            k = k + 1;
        }
        assert(self.charts@.take(self.charts.len() as int) =~= self.charts@);
        (x, y)
    }

    /// Makes the lines for readings of `sensor`: the i-th reading becomes a
    /// line named "`names[i]`-`sensor`", with x from 0 upwards and the
    /// reading's values as y, in a random color of the sensor's family.
    pub fn create_charts(
        message: M,
        graph_data: Vec<GraphData>,
        sensor: Sensortypes,
        name: Vec<String>,
    ) -> (r: PlantCharts<M>)
        requires
            drawable(graph_models(graph_data@), texts(name@)),
        ensures
            charts_from(chart_models(r.charts@), graph_models(graph_data@), sensor, texts(name@)),
            r.message == message,
    {
        let mut charts: Vec<PlantChart> = Vec::new();
        let label = sensor.label();
        let mut i: usize = 0;
        while i < graph_data.len()
            invariant
                i <= graph_data.len(),
                drawable(graph_models(graph_data@), texts(name@)),
                label@ == sensor_label(sensor),
                charts_from(chart_models(charts@), graph_models(graph_data@.take(i as int)), sensor, texts(name@)),
            decreases graph_data.len() - i,
        {
            let data = &graph_data[i];
            assert(graph_models(graph_data@)[i as int] == data@);
            assert(texts(name@)[i as int] == name@[i as int]@);
            let ghost before = charts@;
            let mut title = name[i].clone();
            title.append("-");
            title.append(label.as_str());
            let x = counting_vec(data.timestamps.len());
            let y = data.values.clone();
            assert(y@ =~= data.values@);
            let chart = PlantChart::new(title, x, y, sensor.get_color_with_random_offset());
            charts.push(chart);
            assert(chart_models(charts@) =~= chart_models(before).push(charts@[i as int]@));
            assert(graph_models(graph_data@.take(i + 1)) =~= graph_models(graph_data@.take(i as int)).push(data@));
            i = i + 1;
        }
        assert(graph_data@.take(graph_data.len() as int) =~= graph_data@);
        PlantCharts { charts, message }
    }

    /// Replaces the lines with those made from new readings (see
    /// `create_charts`).
    pub fn update_charts(
        &self,
        message: M,
        graph_data: Vec<GraphData>,
        sensor: Sensortypes,
        name: Vec<String>,
    ) -> (r: PlantCharts<M>)
        requires
            drawable(graph_models(graph_data@), texts(name@)),
        ensures
            charts_from(chart_models(r.charts@), graph_models(graph_data@), sensor, texts(name@)),
            r.message == message,
    {
        PlantCharts::<M>::create_charts(message, graph_data, sensor, name)
    }
}

} // verus!
