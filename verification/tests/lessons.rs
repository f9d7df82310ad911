use lessons::{
    age_group, break_with_value, classify_by_seven, cloning_machine, divide, first_two,
    frobnicate, labels, narrow_to_i8, narrow_to_u8, next_int, parity_remark, random_divisibility,
    return_42, safe_divide, try_narrow_to_i8, widen_to_i64, AgeGroup, AlgorithmStep, Data,
    Divisibility, Dog, EdgeStep, Graph, Hero, Human, MyBox, NewsArticle, NodeState, NodeStep,
    Pair, ParityRemark, Photo, Point, Position, Size, Speak, StepLog, Summary, Tuple2, Tweet,
    Upload,
};
use lessons::Description;

#[test]
fn it_works() {
    assert_eq!(return_42(), 42);
}

#[test]
fn test_frobnicate() {
    assert_eq!(frobnicate(2), 42);
}

#[test]
fn loop_values() {
    assert_eq!(break_with_value(), 32);
    assert_eq!(break_with_value() + 10, 42);
    assert_eq!(labels(), 2);
}

#[test]
fn data_cell_reads_what_was_written() {
    let mut data = Data::new();
    assert_eq!(data.read(), 0);
    data.write(next_int());
    assert_eq!(data.read(), 42);
}

#[test]
fn hero_level_up_and_equality() {
    let mut hero: Hero = Hero::new(String::from("Ferris"));
    hero.level_up();

    let steve = Hero {
        name: String::from("Steve The Normal Guy"),
        ..hero.clone()
    };
    assert_eq!(hero.level, steve.level);

    let mut twin = hero.clone();
    assert_eq!(hero, twin);
    twin.level_up();
    assert_ne!(hero, twin);
    hero.level_up();
    assert_eq!(hero, twin);

    let pos = Position(42, 0);
    let dist = steve.distance(pos);
    assert_eq!(dist, 42);

    let behind = Position(-5, 3);
    assert_eq!(steve.distance(behind), 8);
}

#[test]
fn division_rounds_towards_zero() {
    assert_eq!(divide(84, 2), 42);
    assert_eq!(divide(-7, 2), -3);
    assert_eq!(divide(7, -2), -3);
    assert_eq!(divide(-7, -2), 3);
}

#[test]
fn safe_division_catches_zero() {
    assert_eq!(safe_divide(42, 2), Some(21));
    assert_eq!(safe_divide(42, 0), None);
}

#[test]
fn nested_options_differ_from_empty() {
    let mut double_nullable: Option<Option<i32>> = Some(Some(42));
    double_nullable = Some(None);
    assert_ne!(double_nullable, None);
}

#[test]
fn first_two_of_a_sequence() {
    let seq = [1u32, 2, 3, 4];
    assert_eq!(first_two(&seq[..]), &[1, 2]);
    let short = [9u32];
    assert_eq!(first_two(&short[..]), &[9]);
    let empty: [u32; 0] = [];
    assert_eq!(first_two(&empty[..]), &[]);
}

#[test]
fn point_constructor_and_default() {
    let p = Point::new(1);
    assert_eq!(p.x(), 1);
    let p = Point::default();
    assert_eq!(p.x(), 10);
}

#[test]
fn generic_pairs() {
    let t = Tuple2::new(1, 2.5);
    assert_eq!(t.x, 1);
    assert_eq!(t.y, 2.5);

    let p = Pair { x: 5, y: 10 };
    assert_eq!(p.largest(), 10);
    assert_eq!(p.smallest(), 5);
    let q = Pair { x: 7, y: 7 };
    assert_eq!(q.largest(), 7);
    assert_eq!(q.smallest(), 7);
}

#[test]
fn cloning_machines_preserve_values() {
    let arr = [1, 2, 3];
    let arr2 = cloning_machine(&arr);
    assert_eq!(arr2[0], 1);
    assert_eq!(arr2, arr);
    let s = cloning_machine(&String::from("Ala"));
    assert_eq!(s, "Ala");
}

#[test]
fn my_box_wraps_a_value() {
    let int_box = MyBox::new(5);
    assert_eq!(*int_box.inner(), 5);
    let str_box = MyBox::new(String::from("Rust"));
    assert_eq!(str_box.inner(), "Rust");
}

#[test]
fn conversions_narrow_and_widen() {
    let small_number: u32 = u32::MAX;
    assert_eq!(narrow_to_u8(small_number), 255);
    assert_eq!(narrow_to_i8(small_number), -1);
    assert_eq!(widen_to_i64(small_number), 4294967295);
    assert!(try_narrow_to_i8(small_number).is_none());
    assert_eq!(try_narrow_to_i8(100), Some(100));
}

#[test]
fn speak_static_and_dynamic() {
    let dog = Dog;
    let human = Human;
    assert_eq!(dog.speak(), "Hau hau");
    assert_eq!(human.speak(), "Hello world");

    let speakers: [&dyn Speak; 2] = [&dog, &human];
    assert_eq!(speakers[0].speak(), "Hau hau");
    assert_eq!(speakers[1].speak(), "Hello world");
}

#[test]
fn summaries_of_tweets_and_articles() {
    let tweet = Tweet {
        username: String::from("horse_ebooks"),
        content: String::from("of course, as you probably already know, people"),
    };
    assert_eq!(
        tweet.summarize(),
        "horse_ebooks: of course, as you probably already know, people"
    );

    let article = NewsArticle {
        headline: String::from("Penguins win the Stanley Cup Championship!"),
        location: String::from("Pittsburgh, PA, USA"),
        author: String::from("Iceburgh"),
        content: String::from("The Pittsburgh Penguins once again are the best."),
    };
    assert_eq!(
        article.summarize(),
        "Penguins win the Stanley Cup Championship!, by Iceburgh (Pittsburgh, PA, USA)"
    );
}

#[test]
fn descriptions_and_sizes() {
    let upload = Upload {
        filename: String::from("notes.txt"),
    };
    assert_eq!(upload.describe(), "No description available.");

    let photo = Photo {
        filename: String::from("stock_crustacean.png"),
        width: 100,
        height: 150,
    };
    assert_eq!(photo.describe(), "stock_crustacean.png (100 x 150)");
    assert_eq!(photo.size(), 15000);
    assert_eq!(photo.width(), 100);
    assert_eq!(photo.height(), 150);
}

#[test]
fn classification_by_seven() {
    assert_eq!(classify_by_seven(14), Divisibility::DivisibleBySeven);
    assert_eq!(classify_by_seven(15), Divisibility::AlmostDivisibleBySeven);
    assert_eq!(classify_by_seven(16), Divisibility::NotDivisibleBySeven);
    assert_eq!(classify_by_seven(0), Divisibility::DivisibleBySeven);
    assert_eq!(classify_by_seven(-7), Divisibility::DivisibleBySeven);
    assert_eq!(classify_by_seven(-6), Divisibility::NotDivisibleBySeven);
}

#[test]
fn random_draw_is_classified_consistently() {
    let (number, class) = random_divisibility();
    let expected = match number % 7 {
        0 => Divisibility::DivisibleBySeven,
        1 => Divisibility::AlmostDivisibleBySeven,
        _ => Divisibility::NotDivisibleBySeven,
    };
    assert_eq!(class, expected);
}

#[test]
fn age_groups() {
    assert_eq!(age_group(0), AgeGroup::Kid);
    assert_eq!(age_group(12), AgeGroup::Kid);
    assert_eq!(age_group(13), AgeGroup::Teenager);
    assert_eq!(age_group(19), AgeGroup::Teenager);
    assert_eq!(age_group(20), AgeGroup::YoungAdult);
    assert_eq!(age_group(42), AgeGroup::Adult);
    assert_eq!(age_group(50), AgeGroup::Mature);
    assert_eq!(age_group(70), AgeGroup::Old);
}

#[test]
fn parity_remarks() {
    assert_eq!(parity_remark(13), ParityRemark::OddTeenager);
    assert_eq!(parity_remark(42), ParityRemark::EvenMan);
    assert_eq!(parity_remark(21), ParityRemark::Normal);
    assert_eq!(parity_remark(12), ParityRemark::EvenMan);
}

#[test]
fn dfs_visits_everything_reachable() {
    let mut graph = Graph::new();
    let a = graph.add_node();
    let b = graph.add_node();
    let c = graph.add_node();
    let e0 = graph.add_edge(a, b);
    let e1 = graph.add_edge(a, c);

    let mut log = StepLog::new();
    log.dfs_helper(&mut graph, a);

    assert_eq!(graph.get_state(a), NodeState::Visited);
    assert_eq!(graph.get_state(b), NodeState::Visited);
    assert_eq!(graph.get_state(c), NodeState::Visited);

    assert_eq!(log.len(), 8);
    assert_eq!(
        log.step_at(0),
        AlgorithmStep::Node(NodeStep::new(a, NodeState::Queued))
    );
    assert_eq!(log.step_at(1), AlgorithmStep::Edge(EdgeStep::new(e0)));
    assert_eq!(
        log.step_at(2),
        AlgorithmStep::Node(NodeStep::new(b, NodeState::Queued))
    );
    assert_eq!(
        log.step_at(3),
        AlgorithmStep::Node(NodeStep::new(b, NodeState::Visited))
    );
    assert_eq!(log.step_at(4), AlgorithmStep::Edge(EdgeStep::new(e1)));
    assert_eq!(
        log.step_at(5),
        AlgorithmStep::Node(NodeStep::new(c, NodeState::Queued))
    );
    assert_eq!(
        log.step_at(6),
        AlgorithmStep::Node(NodeStep::new(c, NodeState::Visited))
    );
    assert_eq!(
        log.step_at(7),
        AlgorithmStep::Node(NodeStep::new(a, NodeState::Visited))
    );
}

#[test]
fn dfs_terminates_on_a_cycle() {
    let mut graph = Graph::new();
    let a = graph.add_node();
    let b = graph.add_node();
    graph.add_edge(a, b);
    graph.add_edge(b, a);

    let mut log = StepLog::new();
    log.dfs_helper(&mut graph, a);

    assert_eq!(graph.get_state(a), NodeState::Visited);
    assert_eq!(graph.get_state(b), NodeState::Visited);
}

#[test]
fn dfs_leaves_unreachable_nodes_alone() {
    let mut graph = Graph::new();
    let a = graph.add_node();
    let b = graph.add_node();
    let lone = graph.add_node();
    graph.add_edge(a, b);

    let mut log = StepLog::new();
    log.dfs_helper(&mut graph, a);

    assert_eq!(graph.get_state(a), NodeState::Visited);
    assert_eq!(graph.get_state(b), NodeState::Visited);
    assert_eq!(graph.get_state(lone), NodeState::NotVisited);
}
