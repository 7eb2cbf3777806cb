use std::any::TypeId;
use std::hash::{Hash, Hasher};

use bevy::app::{App, Update};
use bevy::ecs::component::{Component, TableStorage};
use bevy::ecs::schedule::{IntoSystemConfigs, SystemConfigs, SystemSet};
use bevy::ecs::system::{Query, Res, ResMut, Resource};
use bevy::utils::label::DynEq;
use data_flow::{data_flow_config, Constraint, DataLabel, DataLabels, TaskConfig};

#[derive(Debug, Clone, Copy, PartialEq, Eq, Hash)]
struct DataSet(TypeId);

impl SystemSet for DataSet {
    fn as_dyn_eq(&self) -> &dyn DynEq {
        self
    }

    fn dyn_hash(&self, mut state: &mut dyn Hasher) {
        TypeId::of::<Self>().hash(&mut state);
        self.hash(&mut state);
    }

    fn dyn_clone(&self) -> Box<dyn SystemSet> {
        Box::new(*self)
    }
}

fn add_data_flow<Marker>(
    app: &mut App,
    system: impl IntoSystemConfigs<Marker>,
    read_sets: impl DataLabels,
    write_sets: impl DataLabels,
) {
    let config = data_flow_config(TaskConfig::new(), read_sets, write_sets);
    let mut configs: SystemConfigs = system.into_configs();
    for constraint in config.constraints.iter() {
        configs = match *constraint {
            Constraint::RunsAfter(kind) => configs.after(DataSet(kind)),
            Constraint::InSet(kind) => configs.in_set(DataSet(kind)),
        };
    }
    app.add_systems(Update, configs);
}

#[derive(Debug)]
struct ComponentA(pub u32);

impl Component for ComponentA {
    type Storage = TableStorage;
}

#[derive(Debug)]
struct ComponentB(pub u32);

impl Component for ComponentB {
    type Storage = TableStorage;
}

#[derive(Debug, Default)]
struct ResourceC(pub Vec<u32>);

impl Resource for ResourceC {}

fn increment_a(mut query: Query<&mut ComponentA>) {
    for mut comp_a in query.iter_mut() {
        comp_a.0 += 1;
    }
}

fn double_a_to_b(mut query: Query<(&ComponentA, &mut ComponentB)>) {
    for (comp_a, mut comp_b) in query.iter_mut() {
        comp_b.0 = 2 * comp_a.0;
    }
}

fn push_b_to_c(query: Query<&ComponentB>, mut res_c: ResMut<ResourceC>) {
    for comp_b in query.iter() {
        res_c.0.push(comp_b.0);
    }
}

fn assert_system(
    query: Query<(&ComponentA, &ComponentB)>,
    res_c: Res<ResourceC>,
    frame_count: Res<bevy::core::FrameCount>,
) {
    for (comp_a, comp_b) in query.iter() {
        assert!(
            comp_a.0 == frame_count.0 + 1,
            "Value of ComponentA ({}) should equal to count ({}) + 1.",
            comp_a.0,
            frame_count.0
        );
        assert!(
            comp_b.0 == 2 * (frame_count.0 + 1),
            "Value of ComponentB ({}) should equal to 2 * (count ({}) + 1).",
            comp_b.0,
            frame_count.0
        );
    }
    let expected_log: Vec<u32> = (1..(frame_count.0 + 2)).map(|v| 2 * v).collect();
    assert!(
        res_c.0 == expected_log,
        "Value of ResourceC ({:?}) should equal to {:?}",
        res_c.0,
        expected_log
    );
}

#[test]
fn test_order() {
    let mut app = App::new();
    app.add_plugins(bevy::core::FrameCountPlugin);
    app.world.init_resource::<ResourceC>();
    app.world.spawn((ComponentA(0), ComponentB(0)));
    add_data_flow(
        &mut app,
        assert_system,
        (
            DataLabel::<ComponentA>::default(),
            DataLabel::<ComponentB>::default(),
            DataLabel::<ResourceC>::default(),
        ),
        (),
    );
    add_data_flow(
        &mut app,
        push_b_to_c,
        DataLabel::<ComponentB>::default(),
        DataLabel::<ResourceC>::default(),
    );
    add_data_flow(&mut app, increment_a, (), DataLabel::<ComponentA>::default());
    add_data_flow(
        &mut app,
        double_a_to_b,
        DataLabel::<ComponentA>::default(),
        DataLabel::<ComponentB>::default(),
    );
    app.update();
    app.update();
    app.update();
    assert_eq!(app.world.resource::<ResourceC>().0, vec![2, 4, 6]);
}
