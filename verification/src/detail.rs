//! The detail page: one plant with its data and the charts of one of its
//! sensors, the list of plants to choose from, and the dialogs that edit a
//! plant and its group.
#![allow(non_snake_case)]

use vstd::prelude::*;

use crate::clock::{default_timerange, epoch_start, is_timestamp, timerange_until_now};
use crate::color::{black, RGBColor};
use crate::graphs::{
    chart_models, charts_from, drawable, graph_models, ChartModel, PlantChart, PlantCharts,
};
use crate::requests::{
    is_default_plant, texts, GraphData, GraphModel, PlantGroupMetadata, PlantGroupModel,
    PlantMetadata, PlantModel, SensorRange,
};
use crate::home::range_value;
use crate::sensors::{all_sensors, sensor_index, sensor_name, sensor_named, Sensortypes};
use crate::text::{
    contains_char, lemma_parse_decimal, lemma_split_join_terminated, lemma_split_two,
    debug_string, debug_text, decimal, first_field, first_field_of, i64_to_decimal,
    join_terminated, last_field, last_field_of, parse_i32, parse_i32_of, push_char,
    push_terminated, split_on, split_string, wrap_text, wrapped,
};

verus! {

/// The messages the detail page handles.
#[derive(Debug, PartialEq)]
pub enum DetailMessage {
    /// The ok button of the dialog was pressed: the changes of the plant or
    /// group are sent to the server.
    OkButtonPressed,
    /// Show the readings of this span until now; the page waits (pending)
    /// until they come.
    SwitchTime(chrono::TimeDelta),
    /// Open the dialog that edits the plant.
    OpenModalPlant,
    /// Open the dialog that edits the group.
    OpenModalGroup,
    /// Close the dialog.
    CloseModal,
    /// Delete the plant.
    Delete,
    /// Show the list of plants.
    Pending,
    /// Fetch the list of plants.
    Load,
    /// Fetch and show the plant with this id.
    PlantData(String),
    /// The plant is shown.
    Loaded,
    /// Show the readings of this sensor.
    SwitchGraph(Sensortypes),
    /// The plant id input changed.
    Search(String),
    /// An input of a dialog changed: its number and new text.
    FieldUpdated(u8, String),
    /// The plant was deleted.
    DeleteSuccess,
}

impl Clone for DetailMessage {
    fn clone(&self) -> (r: Self)
        ensures
            r == *self,
    {
        match self {
            DetailMessage::OkButtonPressed => DetailMessage::OkButtonPressed,
            DetailMessage::SwitchTime(span) => DetailMessage::SwitchTime(span.clone()),
            DetailMessage::OpenModalPlant => DetailMessage::OpenModalPlant,
            DetailMessage::OpenModalGroup => DetailMessage::OpenModalGroup,
            DetailMessage::CloseModal => DetailMessage::CloseModal,
            DetailMessage::Delete => DetailMessage::Delete,
            DetailMessage::Pending => DetailMessage::Pending,
            DetailMessage::Load => DetailMessage::Load,
            DetailMessage::PlantData(id) => DetailMessage::PlantData(id.clone()),
            DetailMessage::Loaded => DetailMessage::Loaded,
            DetailMessage::SwitchGraph(sensor) => DetailMessage::SwitchGraph(*sensor),
            DetailMessage::Search(v) => DetailMessage::Search(v.clone()),
            DetailMessage::FieldUpdated(i, v) => DetailMessage::FieldUpdated(*i, v.clone()),
            DetailMessage::DeleteSuccess => DetailMessage::DeleteSuccess,
        }
    }
}

/// The range inputs of the group dialog, one per sensor, typed as
/// `max;min`; a sensor may have none yet.
#[derive(Debug, Clone, PartialEq)]
pub struct SensorBorders {
    entries: Vec<Option<String>>,
}

/// The view of one range input.
pub open spec fn entry_text(o: Option<String>) -> Option<Seq<char>> {
    match o {
        Some(s) => Some(s@),
        None => None,
    }
}

impl View for SensorBorders {
    type V = Seq<Option<Seq<char>>>;

    closed spec fn view(&self) -> Seq<Option<Seq<char>>> {
        self.entries@.map_values(|o: Option<String>| entry_text(o))
    }
}

impl SensorBorders {
    /// No inputs.
    pub fn new() -> (b: SensorBorders)
        ensures
            b.wf(),
            b@ == Seq::new(4, |i: int| None::<Seq<char>>),
    {
        let mut entries: Vec<Option<String>> = Vec::new();
        entries.push(None);
        entries.push(None);
        entries.push(None);
        entries.push(None);
        let b = SensorBorders { entries };
        assert(b@ =~= Seq::new(4, |i: int| None::<Seq<char>>));
        b
    }

    /// The inputs are one per sensor.
    pub closed spec fn wf(&self) -> bool {
        self.entries@.len() == 4
    }

    pub proof fn lemma_len(&self)
        requires
            self.wf(),
        ensures
            self@.len() == 4,
    {
    }

    /// The input of `sensor`, if it has one.
    pub fn get(&self, sensor: Sensortypes) -> (r: Option<String>)
        requires
            self.wf(),
        ensures
            entry_text(r) == self@[sensor_index(sensor)],
    {
        let k = sensor.index();
        match &self.entries[k] {
            Some(s) => Some(s.clone()),
            None => None,
        }
    }

    /// Sets the input of `sensor`.
    pub fn insert(&mut self, sensor: Sensortypes, value: String)
        requires
            old(self).wf(),
        ensures
            final(self).wf(),
            final(self)@ == old(self)@.update(sensor_index(sensor), Some(value@)),
    {
        let k = sensor.index();
        self.entries.set(k, Some(value));
        assert(self@ =~= old(self)@.update(sensor_index(sensor), Some(value@)));
    }

    /// Whether `sensor` has an input.
    pub fn contains_key(&self, sensor: Sensortypes) -> (r: bool)
        requires
            self.wf(),
        ensures
            r == (self@[sensor_index(sensor)] is Some),
    {
        let k = sensor.index();
        self.entries[k].is_some()
    }
}

/// The plant shown: its id, its data, and its charts.
#[derive(Debug, Clone, PartialEq)]
pub struct DetailPlant {
    pub id: String,
    pub data: PlantMetadata,
    pub charts: PlantCharts<DetailMessage>,
}

/// A single name in a list.
fn single(name: String) -> (v: Vec<String>)
    ensures
        texts(v@) == seq![name@],
{
    let mut v: Vec<String> = Vec::new();
    v.push(name);
    assert(texts(v@) =~= seq![v@[0]@]);
    v
}

/// Readings of a single plant can be drawn: at most one reading, with no
/// more points than an `i32` counts.
pub open spec fn plant_readings_drawable(graphs: Seq<GraphModel>) -> bool {
    &&& graphs.len() <= 1
    &&& forall|i: int| 0 <= i < graphs.len() ==> (#[trigger] graphs[i]).timestamps.len() <= i32::MAX
}

/// Whether readings of a single plant can be drawn (see
/// `plant_readings_drawable`).
pub fn plant_readings_are_drawable(graphs: &Vec<GraphData>) -> (r: bool)
    ensures
        r == plant_readings_drawable(graph_models(graphs@)),
{
    if graphs.len() > 1 {
        return false;
    }
    if graphs.len() == 1 {
        assert(graph_models(graphs@)[0] == graphs@[0]@);
        return graphs[0].timestamps.len() <= 0x7fff_ffff;
    }
    true
}

impl DetailPlant {
    /// The plant `id` with its fetched data, and the soil moisture chart of
    /// its readings, named after the plant.
    pub fn new(id: String, graph_data: Vec<GraphData>, details: PlantMetadata) -> (p: DetailPlant)
        requires
            plant_readings_drawable(graph_models(graph_data@)),
        ensures
            p.id == id,
            p.data == details,
            charts_from(
                chart_models(p.charts.charts@),
                graph_models(graph_data@),
                Sensortypes::Feuchtigkeit,
                seq![details@.name],
            ),
            p.charts.message == DetailMessage::Loaded,
    {
        let names = single(details.name.clone());
        let charts = PlantCharts::create_charts(
            DetailMessage::Loaded,
            graph_data,
            Sensortypes::Feuchtigkeit,
            names,
        );
        DetailPlant { id, data: details, charts }
    }
}

/// The detail page.
#[derive(Debug)]
pub struct DetailPage {
    /// The sensor whose readings are shown.
    pub active_sensor: Sensortypes,
    /// The time range of the readings.
    pub timerange: (String, String),
    /// Whether a dialog is open.
    pub modal: bool,
    /// Whether the open dialog edits the plant (else its group).
    pub modal_is_plant: bool,
    /// The plant's care tips as edited, separated by `;`.
    pub additionalCareTips: String,
    /// The group's care tips as edited, separated by `;`.
    pub careTips: String,
    /// The group's ranges as edited, one per sensor.
    pub sensor_border: SensorBorders,
    /// Ids and names of all plants.
    pub id_names: Vec<(String, String)>,
    /// The plant shown.
    pub plant: DetailPlant,
    /// What the page shows: the list of plants while pending, else the plant.
    pub message: DetailMessage,
}

/// The texts of a list of pairs of strings.
pub open spec fn pairs_text(v: Seq<(String, String)>) -> Seq<(Seq<char>, Seq<char>)> {
    v.map_values(|p: (String, String)| (p.0@, p.1@))
}

/// The detail page with its texts as character sequences.
pub struct DetailModel {
    pub active_sensor: Sensortypes,
    pub timerange: (Seq<char>, Seq<char>),
    pub modal: bool,
    pub modal_is_plant: bool,
    pub additional_care_tips: Seq<char>,
    pub care_tips: Seq<char>,
    pub borders: Seq<Option<Seq<char>>>,
    pub id_names: Seq<(Seq<char>, Seq<char>)>,
    pub plant_id: Seq<char>,
    pub plant: PlantModel,
    pub charts: Seq<ChartModel>,
    pub charts_message: DetailMessage,
    pub message: DetailMessage,
}

impl View for DetailPage {
    type V = DetailModel;

    open spec fn view(&self) -> DetailModel {
        DetailModel {
            active_sensor: self.active_sensor,
            timerange: (self.timerange.0@, self.timerange.1@),
            modal: self.modal,
            modal_is_plant: self.modal_is_plant,
            additional_care_tips: self.additionalCareTips@,
            care_tips: self.careTips@,
            borders: self.sensor_border@,
            id_names: pairs_text(self.id_names@),
            plant_id: self.plant.id@,
            plant: self.plant.data@,
            charts: chart_models(self.plant.charts.charts@),
            charts_message: self.plant.charts.message,
            message: self.message,
        }
    }
}

/// The detail page is well formed: one range input per sensor.
pub open spec fn detail_wf(p: DetailPage) -> bool {
    p.sensor_border.wf()
}

/// The name of the line that marks a range bound of the plant `plant_name`:
/// its `Debug` form followed by `suffix`.
pub open spec fn bound_name(plant_name: Seq<char>, suffix: Seq<char>) -> Seq<char> {
    debug_text(plant_name) + suffix
}

/// The x values of the lines that mark range bounds: those of the first
/// chart shown, none where no chart is shown.
pub open spec fn bound_xs(charts: Seq<ChartModel>) -> Seq<i32> {
    if charts.len() > 0 {
        charts[0].x
    } else {
        Seq::empty()
    }
}

/// The lines that mark the ranges of `sensor`: for each range of the
/// group for that sensor, in order, a black line at its maximum named
/// `"<name>"_Max_Grenze` and one at its minimum named `"<name>"_Min_Grenze`,
/// over the x values of the first chart.
pub open spec fn bound_charts(ranges: Seq<SensorRange>, sensor: Sensortypes, plant_name: Seq<char>, xs: Seq<i32>) -> Seq<ChartModel>
    decreases ranges.len(),
{
    if ranges.len() == 0 {
        Seq::empty()
    } else {
        let rest = bound_charts(ranges.drop_last(), sensor, plant_name, xs);
        let r = ranges.last();
        if r.sensorType.name@ == sensor_name(sensor) {
            rest.push(ChartModel {
                name: bound_name(plant_name, "_Max_Grenze"@),
                x: xs,
                y: Seq::new(xs.len(), |i: int| r.max),
                color: RGBColor(0, 0, 0),
            }).push(ChartModel {
                name: bound_name(plant_name, "_Min_Grenze"@),
                x: xs,
                y: Seq::new(xs.len(), |i: int| r.min),
                color: RGBColor(0, 0, 0),
            })
        } else {
            rest
        }
    }
}

fn filled(value: i32, n: usize) -> (v: Vec<i32>)
    ensures
        v@ == Seq::new(n as nat, |i: int| value),
{
    let mut v: Vec<i32> = Vec::new();
    let mut i: usize = 0;
    while i < n
        invariant
            i <= n,
            v@ =~= Seq::new(i as nat, |j: int| value),
        decreases n - i,
    {
        v.push(value);
        i = i + 1;
    }
    v
}

impl DetailPage {
    /// Creates the detail page: the list of plants (none yet) is shown,
    /// with the soil moisture sensor chosen, the time range from the start
    /// of 2019 until now, no dialog open, and an empty plant.
    pub fn new() -> (p: DetailPage)
        ensures
            detail_wf(p),
            p@.active_sensor == Sensortypes::Feuchtigkeit,
            p@.timerange.0 == epoch_start(),
            is_timestamp(p@.timerange.1),
            !p@.modal,
            p@.modal_is_plant,
            p@.additional_care_tips == Seq::<char>::empty(),
            p@.care_tips == Seq::<char>::empty(),
            p@.borders == Seq::new(4, |i: int| None::<Seq<char>>),
            p@.id_names.len() == 0,
            p@.plant_id == Seq::<char>::empty(),
            is_default_plant(p@.plant),
            p@.charts.len() == 0,
            p@.charts_message == DetailMessage::Loaded,
            p@.message == DetailMessage::Pending,
    {
        let plant = DetailPlant {
            id: String::new(),
            data: PlantMetadata::default(),
            charts: PlantCharts::new(Vec::new(), DetailMessage::Loaded),
        };
        let p = DetailPage {
            active_sensor: Sensortypes::Feuchtigkeit,
            id_names: Vec::new(),
            timerange: default_timerange(),
            modal: false,
            modal_is_plant: true,
            careTips: String::new(),
            sensor_border: SensorBorders::new(),
            additionalCareTips: String::new(),
            plant,
            message: DetailMessage::Pending,
        };
        assert(p@.charts =~= Seq::<ChartModel>::empty());
        p
    }

    /// The title of the page.
    pub fn title(&self) -> (s: String)
        ensures
            self.message == DetailMessage::Load ==> s@ == "Verfügbare Pflanzen"@,
            self.message != DetailMessage::Load ==> s@ == "Detailübersicht"@,
    {
        match self.message {
            DetailMessage::Load => String::from_str("Verfügbare Pflanzen"),
            _ => String::from_str("Detailübersicht"),
        }
    }

    /// Breaks a description into lines (see `wrapped`): each word followed
    /// by a space, and a line break before a word once the words so far pass
    /// 30 bytes.
    pub fn insert_newline_to_string(&self, string: String) -> (r: String)
        ensures
            r@ == wrapped(string@),
    {
        wrap_text(string.as_str())
    }

    /// The lines that mark the ranges of `sensor_types` in the plant's
    /// group (see `bound_charts`).
    pub fn min_max_graphs(&self, sensor_types: Sensortypes) -> (r: Vec<PlantChart>)
        ensures
            chart_models(r@) == bound_charts(
                self.plant.data.plantGroup.sensorRanges@,
                sensor_types,
                self.plant.data.name@,
                bound_xs(chart_models(self.plant.charts.charts@)),
            ),
    {
        let ranges = &self.plant.data.plantGroup.sensorRanges;
        let ghost xs = bound_xs(chart_models(self.plant.charts.charts@));
        let sensor_name_text = sensor_types.get_name();
        let mut charts: Vec<PlantChart> = Vec::new();
        let mut i: usize = 0;
        while i < ranges.len()
            invariant
                i <= ranges.len(),
                *ranges == self.plant.data.plantGroup.sensorRanges,
                xs == bound_xs(chart_models(self.plant.charts.charts@)),
                sensor_name_text@ == sensor_name(sensor_types),
                chart_models(charts@) =~= bound_charts(ranges@.take(i as int), sensor_types, self.plant.data.name@, xs),
            decreases ranges.len() - i,
        {
            let range = &ranges[i];
            assert(ranges@.take(i + 1).drop_last() =~= ranges@.take(i as int));
            if range.sensorType.name == sensor_name_text {
                let current = if self.plant.charts.charts.len() > 0 {
                    self.plant.charts.charts[0].clone()
                } else {
                    PlantChart::default()
                };
                assert(current.x@ == xs);
                let n = current.x.len();
                let ghost before = charts@;
                let mut max_name = debug_string(self.plant.data.name.as_str());
                max_name.append("_Max_Grenze");
                charts.push(PlantChart::new(max_name, current.x.clone(), filled(range.max, n), black()));
                let mut min_name = debug_string(self.plant.data.name.as_str());
                min_name.append("_Min_Grenze");
                charts.push(PlantChart::new(min_name, current.x.clone(), filled(range.min, n), black()));
                assert(chart_models(charts@) =~= chart_models(before).push(charts@[before.len() as int]@).push(
                    charts@[before.len() as int + 1]@,
                ));
            }
            i = i + 1;
        }
        assert(ranges@.take(ranges.len() as int) =~= ranges@);
        charts
    }
}

/// What the detail page asks the application to do.
#[derive(Debug)]
pub enum DetailCommand {
    /// Nothing.
    Nothing,
    /// Delete the plant `plant_id`, then send `DeleteSuccess`.
    DeletePlant { plant_id: String },
    /// Fetch the ids and names of all plants (an empty list where that
    /// fails) and hand them to `receive_plant_list`.
    FetchPlantList,
    /// Fetch the readings of `sensor` of the plant `plant_id` in the time
    /// range and the plant's data (empty lists and default data where that
    /// fails), and hand them to `receive_plant`.
    FetchPlant { plant_id: String, sensor: Sensortypes, timerange: (String, String) },
    /// Fetch the readings of `sensor` of the plant `plant_id` in the time
    /// range (an empty list where that fails) and hand them to
    /// `receive_graph`.
    FetchGraph { plant_id: String, sensor: Sensortypes, timerange: (String, String) },
    /// Send the plant's data as that of the plant `plant_id` in the group
    /// `group_id`, then send `Loaded`.
    SavePlant { plant: PlantMetadata, group_id: i32, plant_id: String },
    /// Send the group's data as that of the group `group_id`, then send
    /// `Loaded`.
    SaveGroup { group: PlantGroupMetadata, group_id: String },
}

/// The page after a dialog input changed.
pub open spec fn detail_field_updated(t: DetailModel, index: u8, v: Seq<char>) -> DetailModel {
    if index == 0 {
        DetailModel { plant: PlantModel { name: v, ..t.plant }, ..t }
    } else if index == 1 {
        DetailModel { plant: PlantModel { description: v, ..t.plant }, ..t }
    } else if index == 2 {
        DetailModel { plant: PlantModel { location: v, ..t.plant }, ..t }
    } else if index == 3 {
        DetailModel { plant: PlantModel { species: v, ..t.plant }, ..t }
    } else if index == 4 {
        DetailModel {
            plant: PlantModel {
                plantGroup: PlantGroupModel {
                    id: match parse_i32(v) {
                        Some(n) => n,
                        None => 1i32,
                    },
                    ..t.plant.plantGroup
                },
                ..t.plant
            },
            ..t
        }
    } else if index == 5 {
        DetailModel { additional_care_tips: v, ..t }
    } else if index == 6 {
        DetailModel { plant: PlantModel { plantGroup: PlantGroupModel { name: v, ..t.plant.plantGroup }, ..t.plant }, ..t }
    } else if index == 7 {
        DetailModel { plant: PlantModel { description: v, ..t.plant }, ..t }
    } else if index == 8 {
        DetailModel { care_tips: v, ..t }
    } else if 9 <= index <= 12 {
        DetailModel { borders: t.borders.update(index - 9, Some(v)), ..t }
    } else {
        t
    }
}

/// Every range of the group that belongs to a sensor has an input.
pub open spec fn borders_cover(t: DetailModel) -> bool {
    forall|i: int|
        0 <= i < t.plant.plantGroup.sensorRanges.len() ==> match sensor_named(
            (#[trigger] t.plant.plantGroup.sensorRanges[i]).sensorType.name@,
        ) {
            Some(s) => t.borders[sensor_index(s)] is Some,
            None => true,
        }
}

/// The group's ranges with the bounds typed for their sensors; a range that
/// belongs to no sensor stays as it is.
pub open spec fn ranges_with_borders(ranges: Seq<SensorRange>, borders: Seq<Option<Seq<char>>>) -> Seq<SensorRange> {
    Seq::new(
        ranges.len(),
        |i: int|
            match sensor_named(ranges[i].sensorType.name@) {
                Some(s) => SensorRange {
                    sensorType: ranges[i].sensorType,
                    max: range_value(borders[sensor_index(s)]->0, true),
                    min: range_value(borders[sensor_index(s)]->0, false),
                },
                None => ranges[i],
            },
    )
}

/// The page after the ok button of its dialog: the dialog closes and the
/// care tips (and, for the group, the ranges) are taken from the inputs.
pub open spec fn detail_after_ok(t: DetailModel) -> DetailModel {
    if t.modal_is_plant {
        DetailModel {
            modal: false,
            plant: PlantModel { additionalCareTips: split_on(t.additional_care_tips, ';'), ..t.plant },
            ..t
        }
    } else {
        DetailModel {
            modal: false,
            plant: PlantModel {
                plantGroup: PlantGroupModel {
                    careTips: split_on(t.care_tips, ';'),
                    sensorRanges: ranges_with_borders(t.plant.plantGroup.sensorRanges, t.borders),
                    ..t.plant.plantGroup
                },
                ..t.plant
            },
            ..t
        }
    }
}

/// The input text of a range: `max;min`.
pub open spec fn border_text(r: SensorRange) -> Seq<char> {
    decimal(r.max as int) + seq![';'] + decimal(r.min as int)
}

/// The range inputs after taking over the group's ranges in order: each
/// range of a sensor sets that sensor's input.
pub open spec fn borders_from_ranges(b: Seq<Option<Seq<char>>>, ranges: Seq<SensorRange>) -> Seq<Option<Seq<char>>>
    decreases ranges.len(),
{
    if ranges.len() == 0 {
        b
    } else {
        let before = borders_from_ranges(b, ranges.drop_last());
        match sensor_named(ranges.last().sensorType.name@) {
            Some(s) => before.update(sensor_index(s), Some(border_text(ranges.last()))),
            None => before,
        }
    }
}

/// The range inputs with `0;0` for every sensor that has none.
pub open spec fn borders_filled(b: Seq<Option<Seq<char>>>) -> Seq<Option<Seq<char>>> {
    b.map_values(|o: Option<Seq<char>>| match o {
        Some(v) => Some(v),
        None => Some("0;0"@),
    })
}

/// What a message does to the detail page `o` (giving `n`) and which command it gives.
pub open spec fn detail_updated(o: DetailPage, message: DetailMessage, n: DetailPage, cmd: DetailCommand) -> bool {
    match message {
        DetailMessage::SwitchTime(_) => {
            &&& n@ == (DetailModel { timerange: n@.timerange, message: DetailMessage::Pending, ..o@ })
            &&& (n@.timerange == o@.timerange || (is_timestamp(n@.timerange.0) && is_timestamp(n@.timerange.1)))
            &&& cmd matches DetailCommand::FetchGraph { plant_id, sensor, timerange }
            &&& plant_id@ == o@.plant_id
            &&& sensor == o@.active_sensor
            &&& (timerange.0@, timerange.1@) == n@.timerange
        },
        DetailMessage::SwitchGraph(s) => {
            &&& n@ == (DetailModel { active_sensor: s, ..o@ })
            &&& cmd matches DetailCommand::FetchGraph { plant_id, sensor, timerange }
            &&& plant_id@ == o@.plant_id
            &&& sensor == s
            &&& (timerange.0@, timerange.1@) == o@.timerange
        },
        DetailMessage::PlantData(id) => {
            &&& n@ == o@
            &&& cmd matches DetailCommand::FetchPlant { plant_id, sensor, timerange }
            &&& plant_id == id
            &&& sensor == Sensortypes::Feuchtigkeit
            &&& (timerange.0@, timerange.1@) == o@.timerange
        },
        DetailMessage::Load => {
            &&& n@ == (DetailModel { message: DetailMessage::Pending, ..o@ })
            &&& cmd is FetchPlantList
        },
        DetailMessage::Pending => {
            &&& n@ == (DetailModel { message: DetailMessage::Pending, ..o@ })
            &&& cmd is Nothing
        },
        DetailMessage::Delete => {
            &&& n@ == o@
            &&& cmd matches DetailCommand::DeletePlant { plant_id }
            &&& plant_id@ == o@.plant_id
        },
        DetailMessage::Loaded => n@ == o@ && cmd is Nothing,
        DetailMessage::Search(v) => {
            &&& n@ == (DetailModel { plant_id: v@, ..o@ })
            &&& cmd is Nothing
        },
        DetailMessage::OpenModalPlant => {
            &&& n@ == (DetailModel { modal_is_plant: true, modal: true, ..o@ })
            &&& cmd is Nothing
        },
        DetailMessage::OpenModalGroup => {
            &&& n@ == (DetailModel { modal_is_plant: false, modal: true, ..o@ })
            &&& cmd is Nothing
        },
        DetailMessage::CloseModal => {
            &&& n@ == (DetailModel { modal: false, ..o@ })
            &&& cmd is Nothing
        },
        DetailMessage::FieldUpdated(index, v) => {
            &&& n@ == detail_field_updated(o@, index, v@)
            &&& cmd is Nothing
        },
        DetailMessage::DeleteSuccess => {
            &&& n@ == (DetailModel { modal: false, message: DetailMessage::Pending, ..o@ })
            &&& cmd is Nothing
        },
        DetailMessage::OkButtonPressed => {
            &&& n@ == detail_after_ok(o@)
            &&& o@.modal_is_plant ==> {
                &&& cmd matches DetailCommand::SavePlant { plant, group_id, plant_id }
                &&& plant@ == n@.plant
                &&& group_id == n@.plant.plantGroup.id
                &&& plant_id@ == o@.plant_id
            }
            &&& !o@.modal_is_plant ==> {
                &&& cmd matches DetailCommand::SaveGroup { group, group_id }
                &&& group@ == n@.plant.plantGroup
                &&& group_id@ == decimal(n@.plant.plantGroup.id as int)
            }
        },
    }
}

impl DetailPage {
    /// Takes the typed bounds over into the group's ranges.
    fn apply_borders(&mut self)
        requires
            detail_wf(*old(self)),
            borders_cover(old(self)@),
        ensures
            detail_wf(*final(self)),
            final(self)@ == (DetailModel {
                plant: PlantModel {
                    plantGroup: PlantGroupModel {
                        sensorRanges: ranges_with_borders(old(self)@.plant.plantGroup.sensorRanges, old(self)@.borders),
                        ..old(self)@.plant.plantGroup
                    },
                    ..old(self)@.plant
                },
                ..old(self)@
            }),
    {
        proof {
            self.sensor_border.lemma_len();
        }
        let n = self.plant.data.plantGroup.sensorRanges.len();
        let mut i: usize = 0;
        while i < n
            invariant
                detail_wf(*self),
                self.sensor_border@.len() == 4,
                borders_cover(old(self)@),
                n == self.plant.data.plantGroup.sensorRanges@.len(),
                n == old(self).plant.data.plantGroup.sensorRanges@.len(),
                i <= n,
                self@ == (DetailModel {
                    plant: PlantModel {
                        plantGroup: PlantGroupModel {
                            sensorRanges: self@.plant.plantGroup.sensorRanges,
                            ..old(self)@.plant.plantGroup
                        },
                        ..old(self)@.plant
                    },
                    ..old(self)@
                }),
                forall|j: int| 0 <= j < i ==> #[trigger] self.plant.data.plantGroup.sensorRanges@[j]
                    == ranges_with_borders(old(self)@.plant.plantGroup.sensorRanges, old(self)@.borders)[j],
                forall|j: int| i <= j < n ==> #[trigger] self.plant.data.plantGroup.sensorRanges@[j]
                    == old(self).plant.data.plantGroup.sensorRanges@[j],
            decreases n - i,
        {
            let range = self.plant.data.plantGroup.sensorRanges[i].clone();
            assert(old(self)@.plant.plantGroup.sensorRanges[i as int] == range);
            match Sensortypes::from_name(range.sensorType.name.as_str()) {
                Some(sensor) => {
                    let typed = self.sensor_border.get(sensor);
                    match typed {
                        Some(text) => {
                            let max = match parse_i32_of(first_field_of(text.as_str(), ';').as_str()) {
                                Some(v) => v,
                                None => 0,
                            };
                            let min = match parse_i32_of(last_field_of(text.as_str(), ';').as_str()) {
                                Some(v) => v,
                                None => 0,
                            };
                            self.plant.data.plantGroup.sensorRanges.set(
                                i,
                                SensorRange { sensorType: range.sensorType, min, max },
                            );
                        },
                        None => {},
                    }
                },
                None => {},
            }
            i = i + 1;
        }
        assert(self.plant.data.plantGroup.sensorRanges@ =~= ranges_with_borders(
            old(self)@.plant.plantGroup.sensorRanges,
            old(self)@.borders,
        ));
    }

    /// Whether every range of the group that belongs to a sensor has an
    /// input, which saving the group needs.
    pub fn ranges_have_inputs(&self) -> (r: bool)
        requires
            detail_wf(*self),
        ensures
            r == borders_cover(self@),
    {
        let ranges = &self.plant.data.plantGroup.sensorRanges;
        let mut i: usize = 0;
        while i < ranges.len()
            invariant
                detail_wf(*self),
                ranges@ == self@.plant.plantGroup.sensorRanges,
                i <= ranges.len(),
                forall|j: int|
                    0 <= j < i ==> match sensor_named((#[trigger] ranges@[j]).sensorType.name@) {
                        Some(s) => self@.borders[sensor_index(s)] is Some,
                        None => true,
                    },
            decreases ranges.len() - i,
        {
            match Sensortypes::from_name(ranges[i].sensorType.name.as_str()) {
                Some(s) => {
                    if !self.sensor_border.contains_key(s) {
                        return false;
                    }
                },
                None => {},
            }
            i = i + 1;
        }
        true
    }

    /// Handles a message (see `detail_field_updated` and `detail_after_ok`)
    /// and says what the application is to do:
    /// - a time span sets the time range to that span until now (it stays
    ///   where that start cannot be represented), sets the page pending and,
    ///   like a sensor switch, asks for the readings of the chosen sensor;
    /// - a sensor switch makes that sensor the chosen one and asks for its
    ///   readings of the plant in the time range;
    /// - a plant id asks for that plant's soil moisture readings and data;
    /// - a load shows the list of plants and asks for it;
    /// - a delete asks to delete the plant;
    /// - the ok button closes the dialog and asks to save the plant, with
    ///   its care tips split at `;`, or its group, with the bounds typed as
    ///   `max;min` (0 for what is no number);
    /// - the other messages only change the page.
    pub fn update(&mut self, message: DetailMessage) -> (cmd: DetailCommand)
        requires
            detail_wf(*old(self)),
            (message is OkButtonPressed && !old(self)@.modal_is_plant) ==> borders_cover(old(self)@),
        ensures
            detail_wf(*final(self)),
            detail_updated(*old(self), message, *final(self), cmd),
    {
        proof {
            self.sensor_border.lemma_len();
        }
        match message {
            DetailMessage::SwitchTime(span) => {
                let range = timerange_until_now(span);
                return self.switch_time_to(range);
            },
            DetailMessage::Pending => {
                self.message = DetailMessage::Pending;
            },
            DetailMessage::Delete => {
                return DetailCommand::DeletePlant { plant_id: self.plant.id.clone() };
            },
            DetailMessage::Load => {
                self.message = DetailMessage::Pending;
                return DetailCommand::FetchPlantList;
            },
            DetailMessage::PlantData(id) => {
                return DetailCommand::FetchPlant {
                    plant_id: id,
                    sensor: Sensortypes::Feuchtigkeit,
                    timerange: (self.timerange.0.clone(), self.timerange.1.clone()),
                };
            },
            DetailMessage::SwitchGraph(sensor_types) => {
                self.active_sensor = sensor_types;
                return self.fetch_graph_command(sensor_types);
            },
            DetailMessage::Loaded => {},
            DetailMessage::Search(value) => {
                self.plant.id = value;
            },
            DetailMessage::OpenModalPlant => {
                self.modal_is_plant = true;
                self.modal = true;
            },
            DetailMessage::OpenModalGroup => {
                self.modal_is_plant = false;
                self.modal = true;
            },
            DetailMessage::CloseModal => {
                self.modal = false;
            },
            DetailMessage::OkButtonPressed => {
                if self.modal_is_plant {
                    let tips = split_string(self.additionalCareTips.as_str(), ';');
                    self.plant.data.additionalCareTips = tips;
                    assert(texts(self.plant.data.additionalCareTips@) =~= split_on(old(self)@.additional_care_tips, ';'));
                    self.modal = false;
                    return DetailCommand::SavePlant {
                        plant: self.plant.data.clone(),
                        group_id: self.plant.data.plantGroup.id,
                        plant_id: self.plant.id.clone(),
                    };
                } else {
                    let tips = split_string(self.careTips.as_str(), ';');
                    self.plant.data.plantGroup.careTips = tips;
                    assert(texts(self.plant.data.plantGroup.careTips@) =~= split_on(old(self)@.care_tips, ';'));
                    self.apply_borders();
                    self.modal = false;
                    let group_id = i64_to_decimal(self.plant.data.plantGroup.id as i64);
                    return DetailCommand::SaveGroup { group: self.plant.data.plantGroup.clone(), group_id };
                }
            },
            DetailMessage::FieldUpdated(index, value) => {
                if index == 0 {
                    self.plant.data.name = value;
                } else if index == 1 {
                    self.plant.data.description = value;
                } else if index == 2 {
                    self.plant.data.location = value;
                } else if index == 3 {
                    self.plant.data.species = value;
                } else if index == 4 {
                    self.plant.data.plantGroup.id = match parse_i32_of(value.as_str()) {
                        Some(v) => v,
                        None => 1,
                    };
                } else if index == 5 {
                    self.additionalCareTips = value;
                } else if index == 6 {
                    self.plant.data.plantGroup.name = value;
                } else if index == 7 {
                    self.plant.data.description = value;
                } else if index == 8 {
                    self.careTips = value;
                } else if index == 9 {
                    self.sensor_border.insert(Sensortypes::Feuchtigkeit, value);
                } else if index == 10 {
                    self.sensor_border.insert(Sensortypes::Luftfeuchtigkeit, value);
                } else if index == 11 {
                    self.sensor_border.insert(Sensortypes::Temperatur, value);
                } else if index == 12 {
                    self.sensor_border.insert(Sensortypes::Licht, value);
                }
            },
            DetailMessage::DeleteSuccess => {
                self.modal = false;
                self.message = DetailMessage::Pending;
            },
        }
        DetailCommand::Nothing
    }

    /// Takes over the time range that a time switch computed (the range
    /// stays where none could be computed), sets the page pending and asks
    /// for the readings of the chosen sensor in that range.
    pub fn switch_time_to(&mut self, range: Option<(String, String)>) -> (cmd: DetailCommand)
        requires
            detail_wf(*old(self)),
        ensures
            detail_wf(*final(self)),
            final(self)@ == (DetailModel {
                timerange: match range {
                    Some(r) => (r.0@, r.1@),
                    None => old(self)@.timerange,
                },
                message: DetailMessage::Pending,
                ..old(self)@
            }),
            cmd matches DetailCommand::FetchGraph { plant_id, sensor, timerange }
                && plant_id@ == old(self)@.plant_id && sensor == old(self)@.active_sensor
                && (timerange.0@, timerange.1@) == final(self)@.timerange,
    {
        match range {
            Some(r) => {
                self.timerange = r;
            },
            None => {},
        }
        self.message = DetailMessage::Pending;
        self.fetch_graph_command(self.active_sensor)
    }

    fn fetch_graph_command(&self, sensor: Sensortypes) -> (cmd: DetailCommand)
        ensures
            cmd matches DetailCommand::FetchGraph { plant_id, sensor: s, timerange }
                && plant_id@ == self.plant.id@ && s == sensor
                && (timerange.0@, timerange.1@) == (self.timerange.0@, self.timerange.1@),
    {
        DetailCommand::FetchGraph {
            plant_id: self.plant.id.clone(),
            sensor,
            timerange: (self.timerange.0.clone(), self.timerange.1.clone()),
        }
    }
}

/// The charts after new readings: `charts` holds first the lines of the
/// readings (see `charts_from`), then the lines that mark the group's
/// ranges for the sensor over their x values.
pub open spec fn charts_with_bounds(
    charts: Seq<ChartModel>,
    graphs: Seq<GraphModel>,
    sensor: Sensortypes,
    plant: PlantModel,
    ranges: Seq<SensorRange>,
) -> bool {
    &&& charts.len() >= graphs.len()
    &&& charts_from(charts.take(graphs.len() as int), graphs, sensor, seq![plant.name])
    &&& charts.skip(graphs.len() as int) == bound_charts(
        ranges,
        sensor,
        plant.name,
        bound_xs(charts.take(graphs.len() as int)),
    )
}

impl DetailPage {
    /// Takes over the ids and names of all plants.
    pub fn receive_plant_list(&mut self, id_names: Vec<(String, String)>)
        requires
            detail_wf(*old(self)),
        ensures
            detail_wf(*final(self)),
            final(self)@ == (DetailModel { id_names: pairs_text(id_names@), ..old(self)@ }),
    {
        self.id_names = id_names;
    }

    /// Sets the range inputs from the group's ranges, then gives `0;0` to
    /// every sensor still without one.
    fn borders_from_group(&mut self)
        requires
            detail_wf(*old(self)),
        ensures
            detail_wf(*final(self)),
            final(self)@ == (DetailModel {
                borders: borders_filled(borders_from_ranges(old(self)@.borders, old(self)@.plant.plantGroup.sensorRanges)),
                ..old(self)@
            }),
    {
        proof {
            self.sensor_border.lemma_len();
        }
        let n = self.plant.data.plantGroup.sensorRanges.len();
        let mut i: usize = 0;
        while i < n
            invariant
                detail_wf(*self),
                n == self.plant.data.plantGroup.sensorRanges@.len(),
                i <= n,
                self@ == (DetailModel {
                    borders: borders_from_ranges(old(self)@.borders, old(self)@.plant.plantGroup.sensorRanges.take(i as int)),
                    ..old(self)@
                }),
            decreases n - i,
        {
            let ghost ranges = old(self)@.plant.plantGroup.sensorRanges;
            assert(ranges.take(i + 1).drop_last() =~= ranges.take(i as int));
            let range = &self.plant.data.plantGroup.sensorRanges[i];
            match Sensortypes::from_name(range.sensorType.name.as_str()) {
                Some(sensor) => {
                    let mut text = i64_to_decimal(range.max as i64);
                    push_char(&mut text, ';');
                    let min = i64_to_decimal(range.min as i64);
                    text.append(min.as_str());
                    assert(*range == ranges[i as int]);
                    assert(text@ =~= border_text(*range));
                    self.sensor_border.insert(sensor, text);
                },
                None => {},
            }
            i = i + 1;
        }
        assert(old(self)@.plant.plantGroup.sensorRanges.take(n as int) =~= old(self)@.plant.plantGroup.sensorRanges);
        let ghost taken = self@.borders;
        proof {
            self.sensor_border.lemma_len();
        }
        let sensors = Sensortypes::iter();
        let mut k: usize = 0;
        while k < sensors.len()
            invariant
                detail_wf(*self),
                sensors@ == all_sensors(),
                k <= sensors.len(),
                self.sensor_border@.len() == 4,
                taken.len() == 4,
                self@ == (DetailModel { borders: self@.borders, ..old(self)@ }),
                forall|j: int| 0 <= j < k ==> #[trigger] self@.borders[j] == borders_filled(taken)[j],
                forall|j: int| k <= j < 4 ==> #[trigger] self@.borders[j] == taken[j],
            decreases sensors.len() - k,
        {
            let sensor = sensors[k];
            assert(sensor_index(sensor) == k);
            if !self.sensor_border.contains_key(sensor) {
                self.sensor_border.insert(sensor, String::from_str("0;0"));
            }
            proof {
                self.sensor_border.lemma_len();
            }
            k = k + 1;
        }
        assert(self@.borders =~= borders_filled(taken));
    }

    /// Adds the lines that mark the ranges of `sensor` to the charts.
    fn add_bound_charts(&mut self, sensor: Sensortypes)
        ensures
            final(self)@ == (DetailModel {
                charts: old(self)@.charts + bound_charts(
                    old(self)@.plant.plantGroup.sensorRanges,
                    sensor,
                    old(self)@.plant.name,
                    bound_xs(old(self)@.charts),
                ),
                ..old(self)@
            }),
            final(self).sensor_border == old(self).sensor_border,
    {
        let mut extra = self.min_max_graphs(sensor);
        let ghost before = self.plant.charts.charts@;
        let ghost added = extra@;
        self.plant.charts.charts.append(&mut extra);
        assert(chart_models(self.plant.charts.charts@) =~= chart_models(before) + chart_models(added));
    }

    /// Shows the plant `id` with its fetched soil moisture readings and
    /// data: the care tips become the inputs (each followed by `;`), the
    /// group's ranges become the range inputs (`max;min`; `0;0` for sensors
    /// without one), and the lines marking the soil moisture ranges are
    /// added to the chart.
    pub fn receive_plant(&mut self, id: String, graphs: Vec<GraphData>, details: PlantMetadata)
        requires
            detail_wf(*old(self)),
            plant_readings_drawable(graph_models(graphs@)),
        ensures
            detail_wf(*final(self)),
            final(self)@ == (DetailModel {
                plant_id: id@,
                plant: details@,
                additional_care_tips: join_terminated(details.additionalCareTips@, ';'),
                care_tips: join_terminated(details.plantGroup.careTips@, ';'),
                borders: borders_filled(borders_from_ranges(old(self)@.borders, details@.plantGroup.sensorRanges)),
                charts: final(self)@.charts,
                charts_message: DetailMessage::Loaded,
                message: DetailMessage::Loaded,
                ..old(self)@
            }),
            charts_with_bounds(
                final(self)@.charts,
                graph_models(graphs@),
                Sensortypes::Feuchtigkeit,
                details@,
                details@.plantGroup.sensorRanges,
            ),
    {
        let ghost g = graph_models(graphs@);
        self.plant = DetailPlant::new(id, graphs, details);
        let ghost c1 = self@.charts;
        let mut tips = String::new();
        push_terminated(&mut tips, &self.plant.data.additionalCareTips, ';');
        self.additionalCareTips = tips;
        let mut group_tips = String::new();
        push_terminated(&mut group_tips, &self.plant.data.plantGroup.careTips, ';');
        self.careTips = group_tips;
        self.borders_from_group();
        self.add_bound_charts(Sensortypes::Feuchtigkeit);
        self.message = DetailMessage::Loaded;
        assert(self@.charts.take(g.len() as int) =~= c1);
        assert(self@.charts.skip(g.len() as int) =~= bound_charts(
            details@.plantGroup.sensorRanges,
            Sensortypes::Feuchtigkeit,
            details@.name,
            bound_xs(c1),
        ));
    }

    /// Shows the fetched readings of `sensor` of the plant, with the lines
    /// that mark the group's ranges for it.
    pub fn receive_graph(&mut self, sensor: Sensortypes, graphs: Vec<GraphData>)
        requires
            detail_wf(*old(self)),
            plant_readings_drawable(graph_models(graphs@)),
        ensures
            detail_wf(*final(self)),
            final(self)@ == (DetailModel {
                charts: final(self)@.charts,
                charts_message: DetailMessage::Loaded,
                message: DetailMessage::Loaded,
                ..old(self)@
            }),
            charts_with_bounds(
                final(self)@.charts,
                graph_models(graphs@),
                sensor,
                old(self)@.plant,
                old(self)@.plant.plantGroup.sensorRanges,
            ),
    {
        let ghost g = graph_models(graphs@);
        let names = single(self.plant.data.name.clone());
        self.plant.charts = PlantCharts::create_charts(DetailMessage::Loaded, graphs, sensor, names);
        let ghost c1 = self@.charts;
        self.add_bound_charts(sensor);
        self.message = DetailMessage::Loaded;
        assert(self@.charts.take(g.len() as int) =~= c1);
        assert(self@.charts.skip(g.len() as int) =~= bound_charts(
            old(self)@.plant.plantGroup.sensorRanges,
            sensor,
            old(self)@.plant.name,
            bound_xs(c1),
        ));
    }
}

/// No two ranges of the group belong to the same sensor.
pub open spec fn one_range_per_sensor(ranges: Seq<SensorRange>) -> bool {
    forall|i: int, j: int|
        0 <= i < j < ranges.len() && (#[trigger] sensor_named(ranges[i].sensorType.name@)) is Some
            ==> sensor_named(ranges[i].sensorType.name@) != #[trigger] sensor_named(ranges[j].sensorType.name@)
}

proof fn lemma_borders_len(b: Seq<Option<Seq<char>>>, ranges: Seq<SensorRange>)
    requires
        b.len() == 4,
    ensures
        borders_from_ranges(b, ranges).len() == 4,
    decreases ranges.len(),
{
    if ranges.len() > 0 {
        lemma_borders_len(b, ranges.drop_last());
    }
}

proof fn lemma_border_of_range(b: Seq<Option<Seq<char>>>, ranges: Seq<SensorRange>, i: int, s: Sensortypes)
    requires
        b.len() == 4,
        one_range_per_sensor(ranges),
        0 <= i < ranges.len(),
        sensor_named(ranges[i].sensorType.name@) == Some(s),
    ensures
        borders_from_ranges(b, ranges)[sensor_index(s)] == Some(border_text(ranges[i])),
    decreases ranges.len(),
{
    lemma_borders_len(b, ranges.drop_last());
    if i < ranges.len() - 1 {
        let prefix = ranges.drop_last();
        assert forall|k: int, j: int|
            0 <= k < j < prefix.len() && (#[trigger] sensor_named(prefix[k].sensorType.name@)) is Some
                implies sensor_named(prefix[k].sensorType.name@) != #[trigger] sensor_named(prefix[j].sensorType.name@) by {
            assert(prefix[k] == ranges[k] && prefix[j] == ranges[j]);
        }
        assert(prefix[i] == ranges[i]);
        lemma_border_of_range(b, prefix, i, s);
        let last = ranges.last();
        assert(sensor_named(ranges[i].sensorType.name@) != sensor_named(ranges[ranges.len() - 1].sensorType.name@));
        match sensor_named(last.sensorType.name@) {
            Some(t) => {
                assert(t != s);
                assert(sensor_index(t) != sensor_index(s));
            },
            None => {},
        }
    }
}

proof fn lemma_border_values(r: SensorRange)
    ensures
        range_value(border_text(r), true) == r.max,
        range_value(border_text(r), false) == r.min,
{
    lemma_parse_decimal(r.max);
    lemma_parse_decimal(r.min);
    lemma_split_two(decimal(r.max as int), decimal(r.min as int), ';');
}

/// Loading a plant fills the group dialog so that confirming it without
/// edits sends the group's ranges unchanged (where no two ranges belong to
/// the same sensor), and its care tips with one empty tip added after
/// them (where no tip holds a `;`).
pub proof fn lemma_group_round_trip(t: DetailModel, b: Seq<Option<Seq<char>>>, group: PlantGroupMetadata)
    requires
        b.len() == 4,
        !t.modal_is_plant,
        t.plant.plantGroup == group@,
        t.borders == borders_filled(borders_from_ranges(b, group@.sensorRanges)),
        t.care_tips == join_terminated(group.careTips@, ';'),
        one_range_per_sensor(group@.sensorRanges),
        forall|i: int| 0 <= i < group.careTips@.len() ==> !contains_char(#[trigger] group.careTips@[i]@, ';'),
    ensures
        borders_cover(t),
        detail_after_ok(t).plant.plantGroup.sensorRanges == group@.sensorRanges,
        detail_after_ok(t).plant.plantGroup.careTips == texts(group.careTips@).push(Seq::<char>::empty()),
{
    let ranges = group@.sensorRanges;
    lemma_borders_len(b, ranges);
    assert forall|i: int| 0 <= i < ranges.len() implies match sensor_named((#[trigger] ranges[i]).sensorType.name@) {
        Some(s) => t.borders[sensor_index(s)] == Some(border_text(ranges[i])),
        None => true,
    } by {
        match sensor_named(ranges[i].sensorType.name@) {
            Some(s) => {
                lemma_border_of_range(b, ranges, i, s);
            },
            None => {},
        }
    }
    let after = ranges_with_borders(ranges, t.borders);
    assert forall|i: int| 0 <= i < ranges.len() implies #[trigger] after[i] == ranges[i] by {
        lemma_border_values(ranges[i]);
    }
    assert(after =~= ranges);
    lemma_split_join_terminated(group.careTips@, ';');
}

/// A detail page as `DetailPage::new` makes it (its time range ends at
/// a time that is not stated).
pub open spec fn detail_as_new(p: DetailPage) -> bool {
    &&& detail_wf(p)
    &&& p@.active_sensor == Sensortypes::Feuchtigkeit
    &&& p@.timerange.0 == epoch_start()
    &&& is_timestamp(p@.timerange.1)
    &&& !p@.modal
    &&& p@.modal_is_plant
    &&& p@.additional_care_tips == Seq::<char>::empty()
    &&& p@.care_tips == Seq::<char>::empty()
    &&& p@.borders == Seq::new(4, |i: int| None::<Seq<char>>)
    &&& p@.id_names.len() == 0
    &&& p@.plant_id == Seq::<char>::empty()
    &&& is_default_plant(p@.plant)
    &&& p@.charts.len() == 0
    &&& p@.charts_message == DetailMessage::Loaded
    &&& p@.message == DetailMessage::Pending
}


/// The plant dialog's inputs edit their own fields: input 2 ("Position der
/// Pflanze") sets exactly the plant's location and input 3
/// ("Pflanzenspezies") exactly its species; each leaves the other field,
/// the plant's name and description, and the rest of the page as they were.
pub proof fn lemma_location_and_species_inputs(o: DetailPage, index: u8, v: String, n: DetailPage, cmd: DetailCommand)
    requires
        index == 2 || index == 3,
        detail_updated(o, DetailMessage::FieldUpdated(index, v), n, cmd),
    ensures
        index == 2 ==> n@.plant.location == v@ && n@.plant.species == o@.plant.species,
        index == 3 ==> n@.plant.species == v@ && n@.plant.location == o@.plant.location,
        n@.plant.name == o@.plant.name,
        n@.plant.description == o@.plant.description,
        n@.plant.plantGroup == o@.plant.plantGroup,
        n@.plant_id == o@.plant_id,
        cmd is Nothing,
{
}

/// A location typed into the plant dialog is the location that confirming
/// the dialog sends, and the species sent is the one the plant had.
pub proof fn lemma_typed_location_is_sent(
    p0: DetailPage,
    v: String,
    p1: DetailPage,
    c1: DetailCommand,
    p2: DetailPage,
    c2: DetailCommand,
)
    requires
        detail_updated(p0, DetailMessage::FieldUpdated(2, v), p1, c1),
        p1@.modal_is_plant,
        detail_updated(p1, DetailMessage::OkButtonPressed, p2, c2),
    ensures
        c2 matches DetailCommand::SavePlant { plant, group_id, plant_id }
            && plant@.location == v@ && plant@.species == p0@.plant.species
            && plant_id@ == p0@.plant_id,
{
}

} // verus!
