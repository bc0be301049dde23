use crossover::{
    multi_point_children, single_point_children, uniform_children, Chromosome, Crossover,
    CrossoverError, CrossoverFunctions, Genotype,
};
use rand::rngs::SmallRng;
use rand::SeedableRng;

fn numbers(from: u32, len: u32) -> Chromosome<u32> {
    Chromosome::new((from..from + len).collect())
}

#[test]
fn single_point_cut_at_two() {
    let ind1 = Chromosome::new(vec![1u32, 2, 3, 4, 5]);
    let ind2 = Chromosome::new(vec![6u32, 7, 8, 9, 10]);
    let (child1, child2) = single_point_children(&ind1, &ind2, 2);
    assert_eq!(child1.genes(), &vec![1, 2, 8, 9, 10]);
    assert_eq!(child2.genes(), &vec![6, 7, 3, 4, 5]);
}

#[test]
fn single_point_cut_at_every_place() {
    let ind1 = numbers(0, 6);
    let ind2 = numbers(100, 6);
    for cut in 0..10usize {
        let (child1, child2) = single_point_children(&ind1, &ind2, cut);
        for i in 0..6usize {
            let (own, other) = (ind1.genes()[i], ind2.genes()[i]);
            if i < cut {
                assert_eq!((child1.genes()[i], child2.genes()[i]), (own, other));
            } else {
                assert_eq!((child1.genes()[i], child2.genes()[i]), (other, own));
            }
        }
    }
}

#[test]
fn single_point_cut_at_zero_exchanges_everything() {
    let ind1 = Chromosome::new(vec!['a', 'b', 'c']);
    let ind2 = Chromosome::new(vec!['x', 'y', 'z']);
    let (child1, child2) = single_point_children(&ind1, &ind2, 0);
    assert_eq!(child1.genes(), &vec!['x', 'y', 'z']);
    assert_eq!(child2.genes(), &vec!['a', 'b', 'c']);
}

#[test]
fn single_point_cut_beyond_the_end_exchanges_nothing() {
    let ind1 = Chromosome::new(vec!['a', 'b', 'c']);
    let ind2 = Chromosome::new(vec!['x', 'y', 'z']);
    for cut in [3usize, 4, usize::MAX] {
        let (child1, child2) = single_point_children(&ind1, &ind2, cut);
        assert_eq!(child1.genes(), &vec!['a', 'b', 'c']);
        assert_eq!(child2.genes(), &vec!['x', 'y', 'z']);
    }
}

#[test]
fn uniform_takes_odd_positions_from_the_other_parent() {
    let ind1 = Chromosome::new(vec!['A', 'B', 'C', 'D']);
    let ind2 = Chromosome::new(vec!['E', 'F', 'G', 'H']);
    let (child1, child2) = uniform_children(&ind1, &ind2);
    assert_eq!(child1.genes(), &vec!['A', 'F', 'C', 'H']);
    assert_eq!(child2.genes(), &vec!['E', 'B', 'G', 'D']);
}

#[test]
fn uniform_strategy_is_deterministic() {
    let ind1 = Chromosome::new(vec!['A', 'B', 'C', 'D']);
    let ind2 = Chromosome::new(vec!['E', 'F', 'G', 'H']);
    for _ in 0..5 {
        let (child1, child2) = CrossoverFunctions::UniformCross.cross(&ind1, &ind2).unwrap();
        assert_eq!(child1.genes(), &vec!['A', 'F', 'C', 'H']);
        assert_eq!(child2.genes(), &vec!['E', 'B', 'G', 'D']);
    }
    let mut rng = SmallRng::seed_from_u64(1);
    let (child1, child2) =
        CrossoverFunctions::UniformCross.cross_with(&mut rng, &ind1, &ind2).unwrap();
    assert_eq!(child1.genes(), &vec!['A', 'F', 'C', 'H']);
    assert_eq!(child2.genes(), &vec!['E', 'B', 'G', 'D']);
}

#[test]
fn uniform_accepts_empty_and_single_gene_parents() {
    let empty: Chromosome<u8> = Chromosome::new(vec![]);
    let one = Chromosome::new(vec![7u8]);
    let other = Chromosome::new(vec![9u8]);

    let (child1, child2) = CrossoverFunctions::UniformCross.cross(&empty, &one).unwrap();
    assert!(child1.genes().is_empty());
    assert!(child2.genes().is_empty());

    let (child1, child2) = CrossoverFunctions::UniformCross.cross(&one, &other).unwrap();
    assert_eq!(child1.genes(), &vec![7]);
    assert_eq!(child2.genes(), &vec![9]);
}

#[test]
fn multi_point_with_boundaries_three_seven_ten() {
    let ind1 = numbers(0, 10);
    let ind2 = numbers(100, 10);
    let (child1, child2) = multi_point_children(&ind1, &ind2, &vec![3, 7, 10]);
    assert_eq!(child1.genes(), &vec![0, 1, 2, 103, 104, 105, 106, 7, 8, 9]);
    assert_eq!(child2.genes(), &vec![100, 101, 102, 3, 4, 5, 6, 107, 108, 109]);
}

#[test]
fn multi_point_with_four_segments() {
    let ind1 = numbers(0, 8);
    let ind2 = numbers(100, 8);
    let (child1, child2) = multi_point_children(&ind1, &ind2, &vec![1, 2, 5, 8]);
    assert_eq!(child1.genes(), &vec![0, 101, 2, 3, 4, 105, 106, 107]);
    assert_eq!(child2.genes(), &vec![100, 1, 102, 103, 104, 5, 6, 7]);
}

#[test]
fn multi_point_with_the_closing_boundary_only() {
    let ind1 = numbers(0, 4);
    let ind2 = numbers(100, 4);
    let (child1, child2) = multi_point_children(&ind1, &ind2, &vec![4]);
    assert_eq!(child1.genes(), ind1.genes());
    assert_eq!(child2.genes(), ind2.genes());
}

#[test]
fn multi_point_position_that_no_boundary_closes_stays_with_its_parent() {
    let ind1 = numbers(0, 6);
    let ind2 = numbers(100, 6);

    let (child1, child2) = multi_point_children(&ind1, &ind2, &vec![]);
    assert_eq!(child1.genes(), ind1.genes());
    assert_eq!(child2.genes(), ind2.genes());

    let (child1, child2) = multi_point_children(&ind1, &ind2, &vec![2, 4]);
    assert_eq!(child1.genes(), &vec![0, 1, 102, 103, 4, 5]);
    assert_eq!(child2.genes(), &vec![100, 101, 2, 3, 104, 105]);

    let (child1, child2) = multi_point_children(&ind1, &ind2, &vec![2]);
    assert_eq!(child1.genes(), ind1.genes());
    assert_eq!(child2.genes(), ind2.genes());
}

#[test]
fn multi_point_scans_boundaries_in_the_order_given() {
    let ind1 = numbers(0, 6);
    let ind2 = numbers(100, 6);
    // 4 closes the positions below it; the positions from 4 on pass both
    // boundaries and no third one is left to close them.
    let (child1, child2) = multi_point_children(&ind1, &ind2, &vec![4, 2]);
    assert_eq!(child1.genes(), ind1.genes());
    assert_eq!(child2.genes(), ind2.genes());
    // Positions 3 and 4 pass the first boundary and are closed by the second.
    let (child1, child2) = multi_point_children(&ind1, &ind2, &vec![3, 5, 1]);
    assert_eq!(child1.genes(), &vec![0, 1, 2, 103, 104, 5]);
    assert_eq!(child2.genes(), &vec![100, 101, 102, 3, 4, 105]);
}

#[test]
fn single_gene_parents_are_too_short_to_cut() {
    let ind1 = Chromosome::new(vec![1u32]);
    let ind2 = Chromosome::new(vec![2u32]);
    for strategy in [CrossoverFunctions::SingleCrossPoint, CrossoverFunctions::MultiCrossPoint] {
        assert_eq!(strategy.cross(&ind1, &ind2).err(), Some(CrossoverError::GenotypeTooShort));
        let mut rng = SmallRng::seed_from_u64(3);
        assert_eq!(
            strategy.cross_with(&mut rng, &ind1, &ind2).err(),
            Some(CrossoverError::GenotypeTooShort)
        );
    }
}

#[test]
fn one_short_parent_is_enough_to_refuse() {
    let long = numbers(0, 9);
    let short = Chromosome::new(vec![5u32]);
    let empty: Chromosome<u32> = Chromosome::new(vec![]);
    for strategy in [CrossoverFunctions::SingleCrossPoint, CrossoverFunctions::MultiCrossPoint] {
        for (a, b) in [(&long, &short), (&short, &long), (&long, &empty), (&empty, &empty)] {
            assert_eq!(strategy.cross(a, b).err(), Some(CrossoverError::GenotypeTooShort));
        }
    }
}

#[test]
fn two_genes_are_enough_to_cut() {
    let ind1 = Chromosome::new(vec![1u32, 2]);
    let ind2 = Chromosome::new(vec![3u32, 4]);
    // The only place strictly inside two positions is 1.
    for seed in 0..20 {
        let mut rng = SmallRng::seed_from_u64(seed);
        let (child1, child2) =
            CrossoverFunctions::SingleCrossPoint.cross_with(&mut rng, &ind1, &ind2).unwrap();
        assert_eq!(child1.genes(), &vec![1, 4]);
        assert_eq!(child2.genes(), &vec![3, 2]);
    }
    assert!(CrossoverFunctions::MultiCrossPoint.cross(&ind1, &ind2).is_ok());
}

#[test]
fn longer_parent_is_cut_down_to_the_shorter() {
    let ind1 = numbers(0, 5);
    let ind2 = numbers(100, 8);

    let (child1, child2) = single_point_children(&ind1, &ind2, 3);
    assert_eq!(child1.genes(), &vec![0, 1, 2, 103, 104]);
    assert_eq!(child2.genes(), &vec![100, 101, 102, 3, 4]);

    let (child1, child2) = uniform_children(&ind1, &ind2);
    assert_eq!(child1.genes(), &vec![0, 101, 2, 103, 4]);
    assert_eq!(child2.genes(), &vec![100, 1, 102, 3, 104]);

    let (child1, child2) = multi_point_children(&ind1, &ind2, &vec![2, 5]);
    assert_eq!(child1.genes(), &vec![0, 1, 102, 103, 104]);
    assert_eq!(child2.genes(), &vec![100, 101, 2, 3, 4]);

    // The same with the longer parent first.
    let (child1, child2) = single_point_children(&ind2, &ind1, 3);
    assert_eq!(child1.genes(), &vec![100, 101, 102, 3, 4]);
    assert_eq!(child2.genes(), &vec![0, 1, 2, 103, 104]);
}

#[test]
fn trailing_genes_of_the_longer_parent_never_reach_a_child() {
    let ind1 = numbers(0, 5);
    let ind2 = numbers(100, 8);
    let strategies = [
        CrossoverFunctions::SingleCrossPoint,
        CrossoverFunctions::MultiCrossPoint,
        CrossoverFunctions::UniformCross,
    ];
    for strategy in strategies {
        for seed in 0..50 {
            let mut rng = SmallRng::seed_from_u64(seed);
            let (child1, child2) = strategy.cross_with(&mut rng, &ind1, &ind2).unwrap();
            assert_eq!(child1.length(), 5);
            assert_eq!(child2.length(), 5);
            for trailing in [105u32, 106, 107] {
                assert!(!child1.genes().contains(&trailing));
                assert!(!child2.genes().contains(&trailing));
            }
        }
    }
}
