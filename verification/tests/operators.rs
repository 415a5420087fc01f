use kambo::evaluation::evaluate_population;
use kambo::operators::crossover::{swap_genes, AsVectorSolution, CrossoverOperator, OnePoint, TwoPoint};
use kambo::operators::repair::{NoOpRepair, RepairOperator};
use kambo::operators::selection::{SelectionOperator, TournamentSelection};
use kambo::{OptimizationGoal, Problem, Solution};

#[derive(Clone, Debug, PartialEq)]
struct Genome {
    genes: Vec<i64>,
    fitness: i64,
}

impl Genome {
    fn of(genes: &[i64]) -> Genome {
        Genome { genes: genes.to_vec(), fitness: i64::MAX }
    }

    fn scored(genes: &[i64], fitness: i64) -> Genome {
        Genome { genes: genes.to_vec(), fitness }
    }
}

impl Solution for Genome {
    fn clone_keeps_fitness(&self, _copy: &Self) {}

    fn fitness(&self) -> i64 {
        self.fitness
    }

    fn set_fitness(&mut self, fitness: i64) {
        self.fitness = fitness;
    }
}

impl AsVectorSolution for Genome {
    fn clone_keeps_genes(&self, _copy: &Self) {}

    type Gene = i64;

    fn genes(&self) -> &[i64] {
        &self.genes
    }

    fn genes_mut(&mut self) -> &mut [i64] {
        &mut self.genes
    }
}

struct SumOfGenes;

impl Problem for SumOfGenes {
    type Solution = Genome;

    const GOAL: OptimizationGoal = OptimizationGoal::Minimize;

    fn evaluate(&self, solution: &mut Genome) {
        let total: i64 = solution.genes.iter().sum();
        solution.set_fitness(total);
    }
}

/// The genes of `own` with the positions from `from` up to `to` taken from `other`.
fn spliced(own: &[i64], other: &[i64], from: usize, to: usize) -> Vec<i64> {
    let mut genes = own.to_vec();
    for position in from..to {
        genes[position] = other[position];
    }
    genes
}

#[test]
fn swap_genes_exchanges_the_segment() {
    let mut first = Genome::of(&[1, 2, 3, 4, 5]);
    let mut second = Genome::of(&[10, 20, 30, 40, 50]);
    swap_genes(&mut first, &mut second, 1, 3);
    assert_eq!(first.genes, vec![1, 20, 30, 4, 5]);
    assert_eq!(second.genes, vec![10, 2, 3, 40, 50]);
}

#[test]
fn swap_genes_to_the_end() {
    let mut first = Genome::of(&[1, 2, 3]);
    let mut second = Genome::of(&[4, 5, 6]);
    swap_genes(&mut first, &mut second, 1, 3);
    assert_eq!(first.genes, vec![1, 5, 6]);
    assert_eq!(second.genes, vec![4, 2, 3]);
}

#[test]
fn swap_genes_of_everything() {
    let mut first = Genome::of(&[1, 2, 3]);
    let mut second = Genome::of(&[4, 5, 6]);
    swap_genes(&mut first, &mut second, 0, 3);
    assert_eq!(first.genes, vec![4, 5, 6]);
    assert_eq!(second.genes, vec![1, 2, 3]);
}

#[test]
fn swap_genes_twice_restores_both() {
    let mut first = Genome::of(&[1, 2, 3, 4]);
    let mut second = Genome::of(&[5, 6, 7, 8]);
    swap_genes(&mut first, &mut second, 1, 3);
    swap_genes(&mut first, &mut second, 1, 3);
    assert_eq!(first, Genome::of(&[1, 2, 3, 4]));
    assert_eq!(second, Genome::of(&[5, 6, 7, 8]));
}

#[test]
fn swap_genes_leaves_an_empty_segment_alone() {
    let mut first = Genome::of(&[1, 2, 3]);
    let mut second = Genome::of(&[4, 5, 6]);
    swap_genes(&mut first, &mut second, 2, 2);
    assert_eq!(first, Genome::of(&[1, 2, 3]));
    assert_eq!(second, Genome::of(&[4, 5, 6]));
    swap_genes(&mut first, &mut second, 0, 0);
    assert_eq!(first, Genome::of(&[1, 2, 3]));
    assert_eq!(second, Genome::of(&[4, 5, 6]));
    swap_genes(&mut first, &mut second, 3, 3);
    assert_eq!(first, Genome::of(&[1, 2, 3]));
    assert_eq!(second, Genome::of(&[4, 5, 6]));
}

#[test]
fn swap_genes_keeps_the_fitness() {
    let mut first = Genome::scored(&[1, 2], 3);
    let mut second = Genome::scored(&[4, 5], 9);
    swap_genes(&mut first, &mut second, 1, 2);
    assert_eq!(first, Genome::scored(&[1, 5], 3));
    assert_eq!(second, Genome::scored(&[4, 2], 9));
}

#[test]
fn one_point_with_one_gene_returns_clones() {
    let mut rng = rand::rng();
    let parent1 = Genome::scored(&[7], 7);
    let parent2 = Genome::scored(&[8], 8);
    let (child1, child2) = OnePoint.crossover(&mut rng, &parent1, &parent2);
    assert_eq!(child1, parent1);
    assert_eq!(child2, parent2);
}

#[test]
fn one_point_with_no_gene_returns_clones() {
    let mut rng = rand::rng();
    let parent1 = Genome::scored(&[], 1);
    let parent2 = Genome::scored(&[], 2);
    let (child1, child2) = OnePoint.crossover(&mut rng, &parent1, &parent2);
    assert_eq!(child1, parent1);
    assert_eq!(child2, parent2);
}

#[test]
fn one_point_with_a_short_first_parent_returns_clones() {
    let mut rng = rand::rng();
    let parent1 = Genome::scored(&[7], 7);
    let parent2 = Genome::scored(&[8, 9, 10], 27);
    let (child1, child2) = OnePoint.crossover(&mut rng, &parent1, &parent2);
    assert_eq!(child1, parent1);
    assert_eq!(child2, parent2);
}

#[test]
fn one_point_with_two_genes_cuts_in_the_middle() {
    let mut rng = rand::rng();
    let parent1 = Genome::of(&[1, 2]);
    let parent2 = Genome::of(&[3, 4]);
    for _ in 0..50 {
        let (child1, child2) = OnePoint.crossover(&mut rng, &parent1, &parent2);
        assert_eq!(child1.genes, vec![1, 4]);
        assert_eq!(child2.genes, vec![3, 2]);
    }
}

#[test]
fn one_point_exchanges_a_tail() {
    let mut rng = rand::rng();
    let parent1 = Genome::of(&[1, 2, 3, 4, 5, 6]);
    let parent2 = Genome::of(&[10, 20, 30, 40, 50, 60]);
    let mut cuts_seen = [false; 6];
    for _ in 0..400 {
        let (child1, child2) = OnePoint.crossover(&mut rng, &parent1, &parent2);
        let mut found = false;
        for cut in 1..6 {
            if child1.genes == spliced(&parent1.genes, &parent2.genes, cut, 6)
                && child2.genes == spliced(&parent2.genes, &parent1.genes, cut, 6)
            {
                found = true;
                cuts_seen[cut] = true;
            }
        }
        assert!(found);
    }
    assert!(!cuts_seen[0]);
    assert!(cuts_seen[1..].iter().filter(|seen| **seen).count() >= 2);
}

#[test]
fn one_point_leaves_the_parents_alone() {
    let mut rng = rand::rng();
    let parent1 = Genome::of(&[1, 2, 3]);
    let parent2 = Genome::of(&[4, 5, 6]);
    let _ = OnePoint.crossover(&mut rng, &parent1, &parent2);
    assert_eq!(parent1, Genome::of(&[1, 2, 3]));
    assert_eq!(parent2, Genome::of(&[4, 5, 6]));
}

#[test]
fn two_point_with_few_genes_returns_clones() {
    let mut rng = rand::rng();
    for genes in [vec![], vec![1], vec![1, 2]] {
        let parent1 = Genome::scored(&genes, 1);
        let parent2 = Genome::scored(&genes.iter().map(|gene| gene + 10).collect::<Vec<i64>>(), 2);
        let (child1, child2) = TwoPoint.crossover(&mut rng, &parent1, &parent2);
        assert_eq!(child1, parent1);
        assert_eq!(child2, parent2);
    }
}

#[test]
fn two_point_with_a_short_first_parent_returns_clones() {
    let mut rng = rand::rng();
    let parent1 = Genome::scored(&[7, 8], 15);
    let parent2 = Genome::scored(&[1, 2, 3, 4], 10);
    let (child1, child2) = TwoPoint.crossover(&mut rng, &parent1, &parent2);
    assert_eq!(child1, parent1);
    assert_eq!(child2, parent2);
}

#[test]
fn two_point_with_three_genes_exchanges_the_middle_or_nothing() {
    let mut rng = rand::rng();
    let parent1 = Genome::of(&[1, 2, 3]);
    let parent2 = Genome::of(&[4, 5, 6]);
    let mut exchanged = false;
    let mut kept = false;
    for _ in 0..200 {
        let (child1, child2) = TwoPoint.crossover(&mut rng, &parent1, &parent2);
        if child1.genes == vec![1, 5, 3] {
            assert_eq!(child2.genes, vec![4, 2, 6]);
            exchanged = true;
        } else {
            assert_eq!(child1, parent1);
            assert_eq!(child2, parent2);
            kept = true;
        }
    }
    assert!(exchanged);
    assert!(kept);
}

#[test]
fn two_point_exchanges_an_inner_segment() {
    let mut rng = rand::rng();
    let parent1 = Genome::of(&[1, 2, 3, 4, 5, 6]);
    let parent2 = Genome::of(&[10, 20, 30, 40, 50, 60]);
    for _ in 0..400 {
        let (child1, child2) = TwoPoint.crossover(&mut rng, &parent1, &parent2);
        let mut found = false;
        for point1 in 1..5 {
            for point2 in point1..6 {
                if child1.genes == spliced(&parent1.genes, &parent2.genes, point1, point2)
                    && child2.genes == spliced(&parent2.genes, &parent1.genes, point1, point2)
                {
                    found = true;
                }
            }
        }
        assert!(found);
        assert_eq!(child1.genes[0], 1);
        assert_eq!(child2.genes[0], 10);
        assert_eq!(child1.genes[5], 6);
        assert_eq!(child2.genes[5], 60);
    }
}

#[test]
fn no_op_repair_changes_nothing() {
    let mut solution = Genome::scored(&[1, 2, 3], 6);
    let changed = NoOpRepair.repair(&mut solution);
    assert!(!changed);
    assert_eq!(solution, Genome::scored(&[1, 2, 3], 6));
}

#[test]
fn tournament_selection_keeps_its_size() {
    let selection = TournamentSelection::new(3);
    assert_eq!(selection.size(), 3);
    assert!(selection.fits(3));
    assert!(selection.fits(10));
    assert!(!selection.fits(2));
    assert!(!selection.fits(0));
    assert!(selection.fits(u32::MAX as usize));
    assert!(selection.fits(usize::MAX));
}

#[test]
fn tournament_of_a_whole_population_needs_one_that_32_bits_can_count() {
    let limit = u32::MAX as usize;
    assert!(TournamentSelection::new(limit).fits(limit));
    assert!(TournamentSelection::new(limit + 1).fits(limit + 2));
    assert!(!TournamentSelection::new(limit + 1).fits(limit + 1));
    assert!(!TournamentSelection::new(usize::MAX).fits(usize::MAX));
}

#[test]
fn tournament_selection_returns_members_of_the_population() {
    let mut rng = rand::rng();
    let population = vec![
        Genome::scored(&[0], 5),
        Genome::scored(&[1], 1),
        Genome::scored(&[2], 9),
        Genome::scored(&[3], 3),
    ];
    let selection = TournamentSelection::new(2);
    for _ in 0..100 {
        let (parent1, parent2) = selection.select(&mut rng, &population, OptimizationGoal::Minimize);
        assert!(population.iter().any(|individual| std::ptr::eq(individual, parent1)));
        assert!(population.iter().any(|individual| std::ptr::eq(individual, parent2)));
    }
}

#[test]
fn tournament_of_two_never_selects_the_worst() {
    let mut rng = rand::rng();
    let population = vec![
        Genome::scored(&[0], 5),
        Genome::scored(&[1], 1),
        Genome::scored(&[2], 9),
        Genome::scored(&[3], 3),
    ];
    let selection = TournamentSelection::new(2);
    for _ in 0..200 {
        let (parent1, parent2) = selection.select(&mut rng, &population, OptimizationGoal::Minimize);
        assert_ne!(parent1.fitness, 9);
        assert_ne!(parent2.fitness, 9);
        let (parent1, parent2) = selection.select(&mut rng, &population, OptimizationGoal::Maximize);
        assert_ne!(parent1.fitness, 1);
        assert_ne!(parent2.fitness, 1);
    }
}

#[test]
fn tournament_of_everybody_selects_the_best() {
    let mut rng = rand::rng();
    let population = vec![
        Genome::scored(&[0], 5),
        Genome::scored(&[1], 1),
        Genome::scored(&[2], 9),
        Genome::scored(&[3], 3),
    ];
    let selection = TournamentSelection::new(4);
    for _ in 0..50 {
        let (parent1, parent2) = selection.select(&mut rng, &population, OptimizationGoal::Minimize);
        assert_eq!(parent1.genes, vec![1]);
        assert_eq!(parent2.genes, vec![1]);
        let (parent1, parent2) = selection.select(&mut rng, &population, OptimizationGoal::Maximize);
        assert_eq!(parent1.genes, vec![2]);
        assert_eq!(parent2.genes, vec![2]);
    }
}

#[test]
fn tournament_of_one_selects_anybody() {
    let mut rng = rand::rng();
    let population = vec![Genome::scored(&[0], 5), Genome::scored(&[1], 1), Genome::scored(&[2], 9)];
    let selection = TournamentSelection::new(1);
    let mut seen = [false; 3];
    for _ in 0..300 {
        let (parent1, parent2) = selection.select(&mut rng, &population, OptimizationGoal::Minimize);
        seen[parent1.genes[0] as usize] = true;
        seen[parent2.genes[0] as usize] = true;
    }
    assert_eq!(seen, [true, true, true]);
}

#[test]
fn tournament_in_a_population_of_one_pairs_it_with_itself() {
    let mut rng = rand::rng();
    let population = vec![Genome::scored(&[4], 4)];
    let selection = TournamentSelection::new(1);
    let (parent1, parent2) = selection.select(&mut rng, &population, OptimizationGoal::Minimize);
    assert!(std::ptr::eq(parent1, parent2));
    assert_eq!(parent1, &population[0]);
}

#[test]
fn evaluate_population_scores_everyone_in_place() {
    let mut population = vec![Genome::of(&[1, 2, 3]), Genome::of(&[]), Genome::of(&[-4, 1])];
    evaluate_population(&SumOfGenes, &mut population);
    assert_eq!(
        population,
        vec![
            Genome::scored(&[1, 2, 3], 6),
            Genome::scored(&[], 0),
            Genome::scored(&[-4, 1], -3),
        ]
    );
}

#[test]
fn evaluate_population_of_nobody() {
    let mut population: Vec<Genome> = Vec::new();
    evaluate_population(&SumOfGenes, &mut population);
    assert!(population.is_empty());
}
