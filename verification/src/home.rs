//! The home page: the charts of all plant groups for one sensor, and the
//! dialogs that create plants and plant groups.
#![allow(non_snake_case)]

use vstd::prelude::*;

use crate::clock::{default_timerange, epoch_start, is_timestamp};
use crate::graphs::{
    can_draw, chart_models, charts_from, drawable, graph_models, ChartModel, PlantChart, PlantCharts,
};
use crate::requests::{
    is_default_group, is_default_plant, texts, GraphData, GraphModel, PlantGroupMetadata,
    PlantGroupModel, PlantMetadata, PlantModel, SensorRange,
};
use crate::sensors::{sensor_index, Sensortypes};
use crate::text::{
    decimal, first_field, first_field_of, last_field, last_field_of, lemma_parse_decimal,
    lemma_split_two, parse_i32, parse_i32_of, split_on, split_string,
};

verus! {

/// The messages the home page handles.
#[derive(Debug, PartialEq)]
pub enum HomeMessage {
    /// Open the dialog that creates a plant.
    OpenModalPlant,
    /// Open the dialog that creates a plant group.
    OpenModalGroup,
    /// Close the dialog.
    CloseModal,
    /// The cancel button of the dialog was pressed.
    CancelButtonPressed,
    /// The ok button of the dialog was pressed; the new plant or group is
    /// sent to the server.
    OkButtonPressed,
    /// Nothing to do.
    Plant,
    /// Delete the selected plant group.
    DeleteGroup,
    /// Fetch the lists of groups and plants again.
    Refresh,
    /// Show the charts of this sensor.
    SwitchGraph(Sensortypes),
    /// An input of a dialog changed: its number and new text.
    FieldUpdated(u8, String),
}

impl Clone for HomeMessage {
    fn clone(&self) -> (r: Self)
        ensures
            r == *self,
    {
        match self {
            HomeMessage::OpenModalPlant => HomeMessage::OpenModalPlant,
            HomeMessage::OpenModalGroup => HomeMessage::OpenModalGroup,
            HomeMessage::CloseModal => HomeMessage::CloseModal,
            HomeMessage::CancelButtonPressed => HomeMessage::CancelButtonPressed,
            HomeMessage::OkButtonPressed => HomeMessage::OkButtonPressed,
            HomeMessage::Plant => HomeMessage::Plant,
            HomeMessage::DeleteGroup => HomeMessage::DeleteGroup,
            HomeMessage::Refresh => HomeMessage::Refresh,
            HomeMessage::SwitchGraph(sensor) => HomeMessage::SwitchGraph(*sensor),
            HomeMessage::FieldUpdated(i, v) => HomeMessage::FieldUpdated(*i, v.clone()),
        }
    }
}

/// The readings of one sensor for the groups that had some, and the names
/// of those groups.
pub type SensorReadings = (Vec<GraphData>, Vec<String>);

/// The state of the home page.
#[derive(Debug)]
pub struct HomePage {
    /// The time range of the charts.
    pub timerange: (String, String),
    /// The id typed in to delete a group.
    pub selected_group: String,
    /// Ids and names of the groups.
    pub group_name_id: Vec<(String, String)>,
    /// Whether a dialog is open.
    pub show_modal: bool,
    /// Whether the open dialog is the one for a plant (else for a group).
    pub modal_is_plant: bool,
    /// The plant being created.
    pub new_plant: PlantMetadata,
    /// The group being created.
    pub new_group: PlantGroupMetadata,
    /// The care tips of the new plant, separated by `;`.
    pub additionalCareTips: String,
    /// The ranges of the new group as typed, `max;min`, one per sensor.
    pub sensor_border: Vec<String>,
    /// The care tips of the new group, separated by `;`.
    pub careTips: String,
    /// The group id typed in for the new plant.
    pub group: String,
    /// The charts shown.
    pub charts: PlantCharts<HomeMessage>,
    /// The sensor whose charts are shown.
    pub active_sensor: Sensortypes,
    /// The ids of the groups.
    pub group_ids: Vec<String>,
    /// Ids and names of the plants.
    pub id_names: Vec<(String, String)>,
    /// The names of the groups whose charts are shown.
    pub group_names: Vec<String>,
    /// The readings fetched so far, one slot per sensor.
    pub sensor_data: Vec<Option<SensorReadings>>,
}

/// The texts of a list of pairs of strings.
pub open spec fn text_pairs(v: Seq<(String, String)>) -> Seq<(Seq<char>, Seq<char>)> {
    v.map_values(|p: (String, String)| (p.0@, p.1@))
}

/// The view of a slot of fetched readings.
pub open spec fn readings_model(o: Option<SensorReadings>) -> Option<(Seq<GraphModel>, Seq<Seq<char>>)> {
    match o {
        Some((g, n)) => Some((graph_models(g@), texts(n@))),
        None => None,
    }
}

/// The home page with its texts as character sequences.
pub struct HomeModel {
    pub timerange: (Seq<char>, Seq<char>),
    pub selected_group: Seq<char>,
    pub group_name_id: Seq<(Seq<char>, Seq<char>)>,
    pub show_modal: bool,
    pub modal_is_plant: bool,
    pub new_plant: PlantModel,
    pub new_group: PlantGroupModel,
    pub additional_care_tips: Seq<char>,
    pub sensor_border: Seq<Seq<char>>,
    pub care_tips: Seq<char>,
    pub group: Seq<char>,
    pub charts: Seq<ChartModel>,
    pub charts_message: HomeMessage,
    pub active_sensor: Sensortypes,
    pub group_ids: Seq<Seq<char>>,
    pub id_names: Seq<(Seq<char>, Seq<char>)>,
    pub group_names: Seq<Seq<char>>,
    pub sensor_data: Seq<Option<(Seq<GraphModel>, Seq<Seq<char>>)>>,
}

impl View for HomePage {
    type V = HomeModel;

    open spec fn view(&self) -> HomeModel {
        HomeModel {
            timerange: (self.timerange.0@, self.timerange.1@),
            selected_group: self.selected_group@,
            group_name_id: text_pairs(self.group_name_id@),
            show_modal: self.show_modal,
            modal_is_plant: self.modal_is_plant,
            new_plant: self.new_plant@,
            new_group: self.new_group@,
            additional_care_tips: self.additionalCareTips@,
            sensor_border: texts(self.sensor_border@),
            care_tips: self.careTips@,
            group: self.group@,
            charts: chart_models(self.charts.charts@),
            charts_message: self.charts.message,
            active_sensor: self.active_sensor,
            group_ids: texts(self.group_ids@),
            id_names: text_pairs(self.id_names@),
            group_names: texts(self.group_names@),
            sensor_data: self.sensor_data@.map_values(|o: Option<SensorReadings>| readings_model(o)),
        }
    }
}

/// The home page is well formed: four range inputs and at most four ranges
/// in the new group, a slot of readings for each sensor, and every stored
/// set of readings has a group name for each reading and can be drawn.
pub open spec fn home_wf(p: HomePage) -> bool {
    &&& p.sensor_border@.len() == 4
    &&& p.new_group.sensorRanges@.len() <= 4
    &&& p.sensor_data@.len() == 4
    &&& forall|i: int|
        0 <= i < 4 ==> match #[trigger] p.sensor_data@[i] {
            Some((g, n)) => drawable(graph_models(g@), texts(n@)),
            None => true,
        }
}

/// What the home page asks the application to do.
#[derive(Debug)]
pub enum HomeCommand {
    /// Nothing.
    Nothing,
    /// Delete the group with this id, then refresh.
    DeleteGroup { group_id: String },
    /// Fetch the ids and names of the groups and of the plants, and hand
    /// them to `receive_overview`.
    FetchOverview,
    /// Fetch the readings of `sensor` for the groups `group_ids` in the time
    /// range, and hand them to `receive_group_graphs`.
    FetchGroupGraphs { group_ids: Vec<String>, sensor: Sensortypes, timerange: (String, String) },
    /// Create the plant in the group `group_id`, then refresh.
    CreatePlant { plant: PlantMetadata, group_id: i32 },
    /// Create the group, then refresh.
    CreateGroup { group: PlantGroupMetadata },
}

/// The number of a range value typed as `max;min`: the text before the
/// first `;` for the maximum, after the last `;` for the minimum, and 0
/// where that text is no `i32`.
pub open spec fn range_value(typed: Seq<char>, maximum: bool) -> i32 {
    let field = if maximum { first_field(typed, ';') } else { last_field(typed, ';') };
    match parse_i32(field) {
        Some(v) => v,
        None => 0,
    }
}

/// The ranges of the new group with the values typed for them: range `i`
/// takes the `i`-th input.
pub open spec fn ranges_from_inputs(ranges: Seq<SensorRange>, typed: Seq<Seq<char>>) -> Seq<SensorRange> {
    Seq::new(
        ranges.len(),
        |i: int|
            SensorRange {
                sensorType: ranges[i].sensorType,
                max: range_value(typed[i], true),
                min: range_value(typed[i], false),
            },
    )
}

/// The home page after a dialog input changed.
pub open spec fn home_field_updated(t: HomeModel, index: u8, v: Seq<char>) -> HomeModel {
    if index == 0 {
        HomeModel { new_plant: PlantModel { name: v, ..t.new_plant }, ..t }
    } else if index == 1 {
        HomeModel { new_plant: PlantModel { description: v, ..t.new_plant }, ..t }
    } else if index == 2 {
        HomeModel { new_plant: PlantModel { location: v, ..t.new_plant }, ..t }
    } else if index == 3 {
        HomeModel { additional_care_tips: v, ..t }
    } else if index == 4 {
        HomeModel { new_plant: PlantModel { species: v, ..t.new_plant }, ..t }
    } else if index == 5 {
        HomeModel { group: v, ..t }
    } else if index == 6 {
        HomeModel { new_group: PlantGroupModel { name: v, ..t.new_group }, ..t }
    } else if index == 7 {
        HomeModel { new_group: PlantGroupModel { description: v, ..t.new_group }, ..t }
    } else if index == 8 {
        HomeModel { care_tips: v, ..t }
    } else if index == 9 {
        HomeModel { sensor_border: t.sensor_border.update(0, v), ..t }
    } else if index == 10 {
        HomeModel { sensor_border: t.sensor_border.update(1, v), ..t }
    } else if index == 11 {
        HomeModel { sensor_border: t.sensor_border.update(2, v), ..t }
    } else if index == 12 {
        HomeModel { selected_group: v, ..t }
    } else if index == 13 {
        HomeModel { sensor_border: t.sensor_border.update(3, v), ..t }
    } else {
        t
    }
}

/// The home page after the ok button of its dialog: the dialog closes and
/// the care tips (and, for a group, the ranges) are taken from the inputs.
pub open spec fn home_after_ok(t: HomeModel) -> HomeModel {
    if t.modal_is_plant {
        HomeModel {
            show_modal: false,
            new_plant: PlantModel { additionalCareTips: split_on(t.additional_care_tips, ';'), ..t.new_plant },
            ..t
        }
    } else {
        HomeModel {
            show_modal: false,
            new_group: PlantGroupModel {
                careTips: split_on(t.care_tips, ';'),
                sensorRanges: ranges_from_inputs(t.new_group.sensorRanges, t.sensor_border),
                ..t.new_group
            },
            ..t
        }
    }
}

impl HomePage {
    /// Creates the home page: charts of humidity, none drawn yet, the time
    /// range from the start of 2019 until now, no dialog open, a new plant
    /// and group with default data, and empty inputs.
    pub fn new() -> (p: HomePage)
        ensures
            home_wf(p),
            p@.timerange.0 == epoch_start(),
            is_timestamp(p@.timerange.1),
            p@.selected_group == Seq::<char>::empty(),
            p@.group_name_id.len() == 0,
            !p@.show_modal,
            p@.modal_is_plant,
            is_default_plant(p@.new_plant),
            is_default_group(p@.new_group),
            p@.additional_care_tips == Seq::<char>::empty(),
            p@.sensor_border == Seq::new(4, |i: int| Seq::<char>::empty()),
            p@.care_tips == Seq::<char>::empty(),
            p@.group == Seq::<char>::empty(),
            p@.charts.len() == 0,
            p@.charts_message == HomeMessage::Plant,
            p@.active_sensor == Sensortypes::Luftfeuchtigkeit,
            p@.group_ids.len() == 0,
            p@.id_names.len() == 0,
            p@.group_names.len() == 0,
            p@.sensor_data == Seq::new(4, |i: int| None::<(Seq<GraphModel>, Seq<Seq<char>>)>),
    {
        let mut sensor_border: Vec<String> = Vec::new();
        let mut sensor_data: Vec<Option<SensorReadings>> = Vec::new();
        let mut i: usize = 0;
        while i < 4
            invariant
                i <= 4,
                sensor_border@.len() == i,
                sensor_data@.len() == i,
                forall|j: int| 0 <= j < i ==> (#[trigger] sensor_border@[j])@ == Seq::<char>::empty(),
                forall|j: int| 0 <= j < i ==> (#[trigger] sensor_data@[j]) is None,
            decreases 4 - i,
        {
            sensor_border.push(String::new());
            sensor_data.push(None);
            i = i + 1;
        }
        let p = HomePage {
            timerange: default_timerange(),
            selected_group: String::new(),
            group_name_id: Vec::new(),
            show_modal: false,
            modal_is_plant: true,
            new_plant: PlantMetadata::default(),
            new_group: PlantGroupMetadata::default(),
            additionalCareTips: String::new(),
            sensor_border,
            careTips: String::new(),
            group: String::new(),
            charts: PlantCharts::new(Vec::new(), HomeMessage::Plant),
            active_sensor: Sensortypes::Luftfeuchtigkeit,
            group_ids: Vec::new(),
            id_names: Vec::new(),
            group_names: Vec::new(),
            sensor_data,
        };
        assert(p@.sensor_border =~= Seq::new(4, |i: int| Seq::<char>::empty()));
        assert(p@.sensor_data =~= Seq::new(4, |i: int| None::<(Seq<GraphModel>, Seq<Seq<char>>)>));
        assert(p@.charts =~= Seq::<ChartModel>::empty());
        p
    }

    /// The title of the page.
    pub fn title(&self) -> (s: String)
        ensures
            s@ == "Dashboard"@,
    {
        String::from_str("Dashboard")
    }
}

/// The names of the groups of `groups` whose id is among `ids`, in the
/// order of `groups`.
pub open spec fn group_names_in(groups: Seq<(Seq<char>, Seq<char>)>, ids: Seq<Seq<char>>) -> Seq<Seq<char>>
    decreases groups.len(),
{
    if groups.len() == 0 {
        Seq::empty()
    } else {
        let rest = group_names_in(groups.drop_last(), ids);
        if ids.contains(groups.last().0) {
            rest.push(groups.last().1)
        } else {
            rest
        }
    }
}

/// The readings of a reply to a group readings request.
pub open spec fn reply_graphs(data: Seq<(GraphData, String)>) -> Seq<GraphModel> {
    data.map_values(|p: (GraphData, String)| p.0@)
}

/// The group ids of a reply to a group readings request.
pub open spec fn reply_ids(data: Seq<(GraphData, String)>) -> Seq<Seq<char>> {
    data.map_values(|p: (GraphData, String)| p.1@)
}

/// The first parts of a list of pairs.
pub open spec fn firsts(v: Seq<(Seq<char>, Seq<char>)>) -> Seq<Seq<char>> {
    v.map_values(|p: (Seq<char>, Seq<char>)| p.0)
}

fn contains_id(data: &Vec<(GraphData, String)>, id: &String) -> (r: bool)
    ensures
        r == reply_ids(data@).contains(id@),
{
    let mut j: usize = 0;
    while j < data.len()
        invariant
            j <= data.len(),
            forall|k: int| 0 <= k < j ==> (#[trigger] reply_ids(data@)[k]) != id@,
        decreases data.len() - j,
    {
        if data[j].1 == *id {
            assert(reply_ids(data@)[j as int] == id@);
            return true;
        }
        j = j + 1;
    }
    false
}

/// What a message does to the home page `o` (giving `n`) and which command it gives.
pub open spec fn home_updated(o: HomePage, message: HomeMessage, n: HomePage, cmd: HomeCommand) -> bool {
    match message {
        HomeMessage::DeleteGroup => {
            &&& n@ == o@
            &&& cmd matches HomeCommand::DeleteGroup { group_id } && group_id@ == o@.selected_group
        },
        HomeMessage::Plant => n@ == o@ && cmd is Nothing,
        HomeMessage::Refresh => n@ == o@ && cmd is FetchOverview,
        HomeMessage::OpenModalPlant => {
            &&& n@ == (HomeModel { modal_is_plant: true, show_modal: true, ..o@ })
            &&& cmd is Nothing
        },
        HomeMessage::OpenModalGroup => {
            &&& n@ == (HomeModel { modal_is_plant: false, show_modal: true, ..o@ })
            &&& cmd is Nothing
        },
        HomeMessage::CloseModal | HomeMessage::CancelButtonPressed => {
            &&& n@ == (HomeModel { show_modal: false, ..o@ })
            &&& cmd is Nothing
        },
        HomeMessage::FieldUpdated(index, value) => {
            &&& n@ == home_field_updated(o@, index, value@)
            &&& cmd is Nothing
        },
        HomeMessage::OkButtonPressed => {
            &&& n@ == home_after_ok(o@)
            &&& o@.modal_is_plant ==> {
                &&& cmd matches HomeCommand::CreatePlant { plant, group_id }
                &&& plant@ == n@.new_plant
                &&& group_id == (match parse_i32(o@.group) { Some(v) => v, None => 0i32 })
            }
            &&& !o@.modal_is_plant ==> {
                &&& cmd matches HomeCommand::CreateGroup { group }
                &&& group@ == n@.new_group
            }
        },
        HomeMessage::SwitchGraph(sensor) => match o@.sensor_data[sensor_index(sensor)] {
            None => {
                &&& n@ == (HomeModel { active_sensor: sensor, ..o@ })
                &&& cmd matches HomeCommand::FetchGroupGraphs { group_ids, sensor: s, timerange }
                &&& texts(group_ids@) == o@.group_ids
                &&& s == sensor
                &&& (timerange.0@, timerange.1@) == o@.timerange
            },
            Some((graphs, names)) => {
                &&& n@ == (HomeModel {
                    active_sensor: sensor,
                    group_names: names,
                    charts: n@.charts,
                    charts_message: HomeMessage::Plant,
                    ..o@
                })
                &&& charts_from(n@.charts, graphs, sensor, names)
                &&& cmd is Nothing
            },
        },
    }
}

impl HomePage {
    fn set_border(&mut self, k: usize, value: String)
        requires
            k < old(self).sensor_border@.len(),
        ensures
            final(self)@ == (HomeModel { sensor_border: old(self)@.sensor_border.update(k as int, value@), ..old(self)@ }),
            final(self).sensor_border@.len() == old(self).sensor_border@.len(),
            final(self).new_group.sensorRanges@ == old(self).new_group.sensorRanges@,
            final(self).sensor_data@ == old(self).sensor_data@,
    {
        self.sensor_border.set(k, value);
        assert(texts(self.sensor_border@) =~= texts(old(self).sensor_border@).update(k as int, value@));
    }

    /// Takes the typed ranges over into the ranges of the new group.
    fn apply_range_inputs(&mut self)
        requires
            home_wf(*old(self)),
        ensures
            home_wf(*final(self)),
            final(self)@ == (HomeModel {
                new_group: PlantGroupModel {
                    sensorRanges: ranges_from_inputs(old(self)@.new_group.sensorRanges, old(self)@.sensor_border),
                    ..old(self)@.new_group
                },
                ..old(self)@
            }),
    {
        let n = self.new_group.sensorRanges.len();
        let mut i: usize = 0;
        while i < n
            invariant
                home_wf(*self),
                n == self.new_group.sensorRanges@.len(),
                n == old(self).new_group.sensorRanges@.len(),
                i <= n,
                self@ == (HomeModel {
                    new_group: PlantGroupModel { sensorRanges: self@.new_group.sensorRanges, ..old(self)@.new_group },
                    ..old(self)@
                }),
                forall|j: int| 0 <= j < i ==> #[trigger] self.new_group.sensorRanges@[j]
                    == ranges_from_inputs(old(self)@.new_group.sensorRanges, old(self)@.sensor_border)[j],
                forall|j: int| i <= j < n ==> #[trigger] self.new_group.sensorRanges@[j]
                    == old(self).new_group.sensorRanges@[j],
            decreases n - i,
        {
            assert(texts(self.sensor_border@)[i as int] == self.sensor_border@[i as int]@);
            let typed = self.sensor_border[i].as_str();
            let max = match parse_i32_of(first_field_of(typed, ';').as_str()) {
                Some(v) => v,
                None => 0,
            };
            let min = match parse_i32_of(last_field_of(typed, ';').as_str()) {
                Some(v) => v,
                None => 0,
            };
            let sensor_type = self.new_group.sensorRanges[i].sensorType.clone();
            self.new_group.sensorRanges.set(i, SensorRange { sensorType: sensor_type, min, max });
            i = i + 1;
        }
        assert(self.new_group.sensorRanges@ =~= ranges_from_inputs(
            old(self)@.new_group.sensorRanges,
            old(self)@.sensor_border,
        ));
    }

    /// Handles a message (see `home_field_updated` and `home_after_ok`) and
    /// says what the application is to do:
    /// - a delete press asks to delete the group whose id was typed in;
    /// - a refresh asks for the lists of groups and plants;
    /// - a sensor switch makes that sensor the active one and draws its
    ///   readings if they were fetched before, else asks for them;
    /// - the ok button closes the dialog and asks to create the plant, in
    ///   the group whose id was typed in (0 where that is no number), or
    ///   the group, with the care tips split at `;` and the ranges typed as
    ///   `max;min` (0 for what is no number);
    /// - the other messages only change the page.
    pub fn update(&mut self, message: HomeMessage) -> (cmd: HomeCommand)
        requires
            home_wf(*old(self)),
        ensures
            home_wf(*final(self)),
            home_updated(*old(self), message, *final(self), cmd),
    {
        match message {
            HomeMessage::DeleteGroup => {
                return HomeCommand::DeleteGroup { group_id: self.selected_group.clone() };
            },
            HomeMessage::Plant => {},
            HomeMessage::Refresh => {
                return HomeCommand::FetchOverview;
            },
            HomeMessage::SwitchGraph(sensor) => {
                self.active_sensor = sensor;
                let k = sensor.index();
                assert(self@.sensor_data[k as int] == readings_model(self.sensor_data@[k as int]));
                match &self.sensor_data[k] {
                    None => {
                        let group_ids = self.group_ids.clone();
                        assert(texts(group_ids@) =~= texts(self.group_ids@));
                        return HomeCommand::FetchGroupGraphs {
                            group_ids,
                            sensor,
                            timerange: (self.timerange.0.clone(), self.timerange.1.clone()),
                        };
                    },
                    Some((graphs, names)) => {
                        let graphs = graphs.clone();
                        let names = names.clone();
                        let ghost stored = self.sensor_data@[k as int]->0;
                        let ghost (stored_graphs, stored_names) = stored;
                        assert(graph_models(graphs@) =~= graph_models(stored_graphs@));
                        assert(texts(names@) =~= texts(stored_names@));
                        self.group_names = names.clone();
                        assert(texts(self.group_names@) =~= texts(names@));
                        self.charts = PlantCharts::create_charts(HomeMessage::Plant, graphs, sensor, names);
                    },
                }
            },
            HomeMessage::OpenModalPlant => {
                self.modal_is_plant = true;
                self.show_modal = true;
            },
            HomeMessage::OpenModalGroup => {
                self.modal_is_plant = false;
                self.show_modal = true;
            },
            HomeMessage::FieldUpdated(index, value) => {
                if index == 0 {
                    self.new_plant.name = value;
                } else if index == 1 {
                    self.new_plant.description = value;
                } else if index == 2 {
                    self.new_plant.location = value;
                } else if index == 3 {
                    self.additionalCareTips = value;
                } else if index == 4 {
                    self.new_plant.species = value;
                } else if index == 5 {
                    self.group = value;
                } else if index == 6 {
                    self.new_group.name = value;
                } else if index == 7 {
                    self.new_group.description = value;
                } else if index == 8 {
                    self.careTips = value;
                } else if index == 9 {
                    self.set_border(0, value);
                } else if index == 10 {
                    self.set_border(1, value);
                } else if index == 11 {
                    self.set_border(2, value);
                } else if index == 12 {
                    self.selected_group = value;
                } else if index == 13 {
                    self.set_border(3, value);
                }
            },
            HomeMessage::CloseModal => self.show_modal = false,
            HomeMessage::CancelButtonPressed => self.show_modal = false,
            HomeMessage::OkButtonPressed => {
                if self.modal_is_plant {
                    let tips = split_string(self.additionalCareTips.as_str(), ';');
                    self.new_plant.additionalCareTips = tips;
                    assert(texts(self.new_plant.additionalCareTips@) =~= split_on(old(self)@.additional_care_tips, ';'));
                    self.show_modal = false;
                    let group_id = match parse_i32_of(self.group.as_str()) {
                        Some(v) => v,
                        None => 0,
                    };
                    return HomeCommand::CreatePlant { plant: self.new_plant.clone(), group_id };
                } else {
                    let tips = split_string(self.careTips.as_str(), ';');
                    self.new_group.careTips = tips;
                    assert(texts(self.new_group.careTips@) =~= split_on(old(self)@.care_tips, ';'));
                    self.apply_range_inputs();
                    self.show_modal = false;
                    return HomeCommand::CreateGroup { group: self.new_group.clone() };
                }
            },
        }
        HomeCommand::Nothing
    }
}

/// A reply to a group readings request can be drawn on this page: each
/// reading has the name of a group, and none has more points than an `i32`
/// counts.
pub open spec fn group_reply_drawable(p: HomeModel, data: Seq<(GraphData, String)>) -> bool {
    drawable(reply_graphs(data), group_names_in(p.group_name_id, reply_ids(data)))
}

fn copy_pairs(v: &Vec<(String, String)>) -> (r: Vec<(String, String)>)
    ensures
        r@ == v@,
{
    let mut r: Vec<(String, String)> = Vec::new();
    let mut i: usize = 0;
    while i < v.len()
        invariant
            i <= v.len(),
            r@ == v@.take(i as int),
        decreases v.len() - i,
    {
        r.push((v[i].0.clone(), v[i].1.clone()));
        assert(v@.take(i + 1) =~= v@.take(i as int).push(v@[i as int]));
        i = i + 1;
    }
    assert(v@.take(v.len() as int) =~= v@);
    r
}

impl HomePage {
    /// Takes over the ids and names of the groups and of the plants that
    /// the server answered.
    pub fn receive_overview(&mut self, groups: Vec<(String, String)>, plants: Vec<(String, String)>)
        requires
            home_wf(*old(self)),
        ensures
            home_wf(*final(self)),
            final(self)@ == (HomeModel {
                group_name_id: text_pairs(groups@),
                id_names: text_pairs(plants@),
                group_ids: firsts(text_pairs(groups@)),
                ..old(self)@
            }),
    {
        let mut ids: Vec<String> = Vec::new();
        let mut i: usize = 0;
        while i < groups.len()
            invariant
                i <= groups.len(),
                texts(ids@) =~= firsts(text_pairs(groups@.take(i as int))),
            decreases groups.len() - i,
        {
            let ghost before = ids@;
            let id = groups[i].0.clone();
            ids.push(id);
            assert(texts(ids@) =~= texts(before).push(groups@[i as int].0@));
            assert(groups@.take(i + 1) =~= groups@.take(i as int).push(groups@[i as int]));
            assert(firsts(text_pairs(groups@.take(i + 1))) =~= firsts(text_pairs(groups@.take(i as int))).push(groups@[i as int].0@));
            i = i + 1;
        }
        assert(groups@.take(groups.len() as int) =~= groups@);
        self.group_name_id = groups;
        self.id_names = plants;
        self.group_ids = ids;
    }

    /// Whether a reply to a group readings request can be drawn (see
    /// `group_reply_drawable`).
    pub fn group_reply_is_drawable(&self, data: &Vec<(GraphData, String)>) -> (r: bool)
        ensures
            r == group_reply_drawable(self@, data@),
    {
        let (graphs, _) = self.split_reply(data);
        let names = self.names_in_reply(data);
        can_draw(&graphs, &names)
    }

    fn split_reply(&self, data: &Vec<(GraphData, String)>) -> (r: (Vec<GraphData>, Vec<String>))
        ensures
            graph_models(r.0@) == reply_graphs(data@),
            texts(r.1@) == reply_ids(data@),
    {
        let mut graphs: Vec<GraphData> = Vec::new();
        let mut ids: Vec<String> = Vec::new();
        let mut i: usize = 0;
        while i < data.len()
            invariant
                i <= data.len(),
                graph_models(graphs@) =~= reply_graphs(data@.take(i as int)),
                texts(ids@) =~= reply_ids(data@.take(i as int)),
            decreases data.len() - i,
        {
            let ghost gb = graphs@;
            let ghost ib = ids@;
            let g = data[i].0.clone();
            let id = data[i].1.clone();
            graphs.push(g);
            ids.push(id);
            assert(graph_models(graphs@) =~= graph_models(gb).push(data@[i as int].0@));
            assert(texts(ids@) =~= texts(ib).push(data@[i as int].1@));
            assert(data@.take(i + 1) =~= data@.take(i as int).push(data@[i as int]));
            assert(reply_graphs(data@.take(i + 1)) =~= reply_graphs(data@.take(i as int)).push(data@[i as int].0@));
            assert(reply_ids(data@.take(i + 1)) =~= reply_ids(data@.take(i as int)).push(data@[i as int].1@));
            i = i + 1;
        }
        assert(data@.take(data.len() as int) =~= data@);
        (graphs, ids)
    }

    fn names_in_reply(&self, data: &Vec<(GraphData, String)>) -> (r: Vec<String>)
        ensures
            texts(r@) == group_names_in(self@.group_name_id, reply_ids(data@)),
    {
        let mut names: Vec<String> = Vec::new();
        let mut i: usize = 0;
        while i < self.group_name_id.len()
            invariant
                i <= self.group_name_id.len(),
                texts(names@) =~= group_names_in(text_pairs(self.group_name_id@.take(i as int)), reply_ids(data@)),
            decreases self.group_name_id.len() - i,
        {
            let ghost prefix = text_pairs(self.group_name_id@.take(i as int));
            assert(text_pairs(self.group_name_id@.take(i + 1)).drop_last() =~= prefix);
            if contains_id(data, &self.group_name_id[i].0) {
                names.push(self.group_name_id[i].1.clone());
            }
            i = i + 1;
        }
        assert(self.group_name_id@.take(self.group_name_id.len() as int) =~= self.group_name_id@);
        names
    }

    /// Draws the readings of `sensor` that the server answered for the
    /// groups: the names shown are those of the groups whose id occurs in
    /// the reply, in the order of the group list, and the readings are kept
    /// for the next time this sensor is chosen.
    pub fn receive_group_graphs(&mut self, sensor: Sensortypes, data: Vec<(GraphData, String)>)
        requires
            home_wf(*old(self)),
            group_reply_drawable(old(self)@, data@),
        ensures
            home_wf(*final(self)),
            final(self)@ == (HomeModel {
                group_names: group_names_in(old(self)@.group_name_id, reply_ids(data@)),
                sensor_data: old(self)@.sensor_data.update(
                    sensor_index(sensor),
                    Some((reply_graphs(data@), group_names_in(old(self)@.group_name_id, reply_ids(data@)))),
                ),
                charts: final(self)@.charts,
                charts_message: HomeMessage::Plant,
                ..old(self)@
            }),
            charts_from(
                final(self)@.charts,
                reply_graphs(data@),
                sensor,
                group_names_in(old(self)@.group_name_id, reply_ids(data@)),
            ),
    {
        let (graphs, _) = self.split_reply(&data);
        let names = self.names_in_reply(&data);
        let kept_graphs = graphs.clone();
        let kept_names = names.clone();
        assert(graph_models(kept_graphs@) =~= graph_models(graphs@));
        assert(texts(kept_names@) =~= texts(names@));
        let k = sensor.index();
        self.sensor_data.set(k, Some((kept_graphs, kept_names)));
        let shown = names.clone();
        assert(texts(shown@) =~= texts(names@));
        self.group_names = shown;
        self.charts = PlantCharts::create_charts(HomeMessage::Plant, graphs, sensor, names);
        assert(self@.sensor_data =~= old(self)@.sensor_data.update(
            sensor_index(sensor),
            Some((reply_graphs(data@), group_names_in(old(self)@.group_name_id, reply_ids(data@)))),
        ));
    }
}


/// Readings of a sensor, once taken over from the server, are shown again
/// without a new request: switching to that sensor afterwards asks for
/// nothing and draws the same readings under the same group names.
pub proof fn lemma_fetched_readings_are_reused(
    o: HomePage,
    sensor: Sensortypes,
    data: Seq<(GraphData, String)>,
    n: HomePage,
    m: HomePage,
    cmd: HomeCommand,
)
    requires
        home_wf(o),
        n@.sensor_data == o@.sensor_data.update(
            sensor_index(sensor),
            Some((reply_graphs(data), group_names_in(o@.group_name_id, reply_ids(data)))),
        ),
        home_updated(n, HomeMessage::SwitchGraph(sensor), m, cmd),
    ensures
        cmd is Nothing,
        m@.active_sensor == sensor,
        m@.group_names == group_names_in(o@.group_name_id, reply_ids(data)),
        charts_from(m@.charts, reply_graphs(data), sensor, group_names_in(o@.group_name_id, reply_ids(data))),
{
}

/// A home page as `HomePage::new` makes it (its time range ends at a
/// time that is not stated).
pub open spec fn home_as_new(p: HomePage) -> bool {
    &&& home_wf(p)
    &&& p@.timerange.0 == epoch_start()
    &&& is_timestamp(p@.timerange.1)
    &&& p@.selected_group == Seq::<char>::empty()
    &&& p@.group_name_id.len() == 0
    &&& !p@.show_modal
    &&& p@.modal_is_plant
    &&& is_default_plant(p@.new_plant)
    &&& is_default_group(p@.new_group)
    &&& p@.additional_care_tips == Seq::<char>::empty()
    &&& p@.sensor_border == Seq::new(4, |i: int| Seq::<char>::empty())
    &&& p@.care_tips == Seq::<char>::empty()
    &&& p@.group == Seq::<char>::empty()
    &&& p@.charts.len() == 0
    &&& p@.charts_message == HomeMessage::Plant
    &&& p@.active_sensor == Sensortypes::Luftfeuchtigkeit
    &&& p@.group_ids.len() == 0
    &&& p@.id_names.len() == 0
    &&& p@.group_names.len() == 0
    &&& p@.sensor_data == Seq::new(4, |i: int| None::<(Seq<GraphModel>, Seq<Seq<char>>)>)
}


/// The id typed into the input beside the delete button (input 12) is the
/// id of the group that the delete button then asks to delete.
pub proof fn lemma_typed_group_id_is_deleted(
    p0: HomePage,
    v: String,
    p1: HomePage,
    c1: HomeCommand,
    p2: HomePage,
    c2: HomeCommand,
)
    requires
        home_updated(p0, HomeMessage::FieldUpdated(12, v), p1, c1),
        home_updated(p1, HomeMessage::DeleteGroup, p2, c2),
    ensures
        c1 is Nothing,
        p1@.group == p0@.group,
        c2 matches HomeCommand::DeleteGroup { group_id } && group_id@ == v@,
{
}

/// The bounds typed as `max;min` into the temperature input of the group
/// dialog (input 11) are the bounds of the temperature range (the third
/// range) that confirming the dialog sends; the other ranges keep the
/// values of their own inputs.
pub proof fn lemma_typed_temperature_bounds_are_sent(
    p0: HomePage,
    max: i32,
    min: i32,
    v: String,
    p1: HomePage,
    c1: HomeCommand,
    p2: HomePage,
    c2: HomeCommand,
)
    requires
        home_wf(p0),
        p0@.new_group.sensorRanges.len() > 2,
        v@ == decimal(max as int) + seq![';'] + decimal(min as int),
        home_updated(p0, HomeMessage::FieldUpdated(11, v), p1, c1),
        !p1@.modal_is_plant,
        home_updated(p1, HomeMessage::OkButtonPressed, p2, c2),
    ensures
        c2 matches HomeCommand::CreateGroup { group }
            && group@.sensorRanges[2].max == max && group@.sensorRanges[2].min == min
            && group@.sensorRanges[2].sensorType == p0@.new_group.sensorRanges[2].sensorType
            && (forall|i: int| 0 <= i < group@.sensorRanges.len() && i != 2 ==>
                (#[trigger] group@.sensorRanges[i]).max == range_value(p0@.sensor_border[i], true)),
{
    lemma_parse_decimal(max);
    lemma_parse_decimal(min);
    lemma_split_two(decimal(max as int), decimal(min as int), ';');
    assert(p1@.sensor_border[2] == v@);
}

} // verus!
